use mars::rasterizer::{BufferedRasterizer, DebugRasterizer};
use mars::{
    BlendMode, Color, Drawable, DrawableExt, IndexedColor, Pixel, Position, Rgba, Size,
    SurfaceRenderer,
};

fn trace(renderer: &mut SurfaceRenderer) -> String {
    let mut sink = DebugRasterizer::new();
    renderer.render(&mut sink).unwrap();
    sink.to_string()
}

#[test]
fn first_frame_paints_every_cell() {
    let mut renderer = SurfaceRenderer::new(Size::new(3, 2));
    let text = trace(&mut renderer);
    assert_eq!(
        text,
        "begin\n    move to: 0,0\n    \u{25AA}\u{25AA}\u{25AA}\n    move to: 0,1\n    \u{25AA}\u{25AA}\u{25AA}\nend\n"
    );
}

#[test]
fn second_frame_without_writes_is_silent() {
    let mut renderer = SurfaceRenderer::new(Size::new(3, 2));
    trace(&mut renderer);
    assert_eq!(trace(&mut renderer), "");
}

#[test]
fn a_drawn_cell_is_erased_by_the_next_empty_frame() {
    let mut renderer = SurfaceRenderer::new(Size::new(2, 1));
    trace(&mut renderer);
    renderer.put(Position::new(1, 0), Pixel::new('x'), BlendMode::Replace);
    assert_eq!(trace(&mut renderer), "begin\n    move to: 1,0\n    x\nend\n");
    assert_eq!(
        trace(&mut renderer),
        "begin\n    move to: 1,0\n    \u{25AA}\nend\n"
    );
}

#[test]
fn colours_are_set_once_for_a_run() {
    let mut renderer = SurfaceRenderer::new(Size::new(4, 1));
    trace(&mut renderer);
    let red = Color::Named(IndexedColor::red());
    for x in 0..4 {
        renderer.put(
            Position::new(x, 0),
            Pixel::new('a').fg(red).bg(Color::Rgba(Rgba(1, 2, 3, 255))),
            BlendMode::Replace,
        );
    }
    assert_eq!(
        trace(&mut renderer),
        "begin\n    move to: 0,0\n    set_fg: 1\n    set_bg: #010203FF\n    aaaa\nend\n"
    );
}

#[test]
fn every_other_cell_needs_a_move() {
    let mut renderer = SurfaceRenderer::new(Size::new(5, 1));
    trace(&mut renderer);
    for x in [0, 2, 4] {
        renderer.put(Position::new(x, 0), Pixel::new('o'), BlendMode::Replace);
    }
    assert_eq!(
        trace(&mut renderer),
        "begin\n    move to: 0,0\n    o\n    move to: 2,0\n    o\n    move to: 4,0\n    o\nend\n"
    );
}

#[test]
fn escape_sequences_for_one_cell() {
    let mut renderer = SurfaceRenderer::new(Size::new(1, 1));
    renderer.put(
        Position::new(0, 0),
        Pixel::new('z').fg(Color::Rgba(Rgba(10, 20, 30, 255))),
        BlendMode::Replace,
    );
    let mut sink = BufferedRasterizer::new();
    renderer.render(&mut sink).unwrap();
    let mut bytes = Vec::new();
    sink.copy_to(&mut bytes);
    assert_eq!(
        String::from_utf8(bytes).unwrap(),
        "\x1b[?2026h\x1b[1;1;H\x1b[39m\x1b[49m\x1b[38;2;10;20;30mz\x1b[?2026l"
    );
    let mut again = Vec::new();
    sink.copy_to(&mut again);
    assert!(again.is_empty());
}

#[test]
fn text_is_drawn_line_by_line() {
    let mut renderer = SurfaceRenderer::new(Size::new(4, 2));
    trace(&mut renderer);
    "ab\ncd".draw(&mut renderer, Position::new(1, 0), BlendMode::Replace);
    assert_eq!(
        trace(&mut renderer),
        "begin\n    move to: 1,0\n    ab\n    move to: 1,1\n    cd\nend\n"
    );
}

#[test]
fn adapters_restyle_and_move() {
    let mut renderer = SurfaceRenderer::new(Size::new(10, 4));
    trace(&mut renderer);
    let text = "abcd";
    let styled = text.with_fg(Color::Named(IndexedColor::green()));
    let anchored = styled.with_anchor(mars::Anchor2::center_center());
    assert_eq!(anchored.size(Size::new(10, 4)), Size::new(3, 2));
    anchored.draw(&mut renderer, Position::new(0, 0), BlendMode::Replace);
    assert_eq!(
        trace(&mut renderer),
        "begin\n    move to: 3,2\n    set_fg: 2\n    abcd\nend\n"
    );
}
