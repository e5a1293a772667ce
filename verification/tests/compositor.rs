use mars::rasterizer::DebugRasterizer;
use mars::{
    Attributes, BasicRenderer, BlendMode, Color, IndexedColor, Pixel, Placer, PlacerExt, Position,
    Renderer, RendererSetup, ResizeMode, Rgba, Size, SurfaceRenderer,
};

fn frame(renderer: &mut SurfaceRenderer) -> String {
    let mut sink = DebugRasterizer::new();
    renderer.render(&mut sink).unwrap();
    sink.to_string()
}

fn paint(renderer: &mut BasicRenderer) -> String {
    let mut sink = DebugRasterizer::new();
    renderer.render(&mut sink).unwrap();
    sink.to_string()
}

#[test]
fn puts_outside_the_grid_are_ignored() {
    let mut renderer = SurfaceRenderer::new(Size::new(2, 2));
    frame(&mut renderer);
    for pos in [
        Position::new(2, 0),
        Position::new(0, 2),
        Position::new(2, 1),
        Position::new(-1, 0),
        Position::new(0, -1),
        Position::new(i32::MAX, i32::MAX),
    ] {
        renderer.put(pos, Pixel::new('x'), BlendMode::Replace);
    }
    assert_eq!(frame(&mut renderer), "");
    assert!(renderer.get(Position::new(2, 0)).is_none());
    assert_eq!(renderer.get(Position::new(1, 1)), Some(&Pixel::empty()));
}

#[test]
fn the_frame_is_committed_and_the_front_grid_cleared() {
    let mut renderer = SurfaceRenderer::new(Size::new(2, 1));
    renderer.put(Position::new(0, 0), Pixel::new('a'), BlendMode::Replace);
    assert_eq!(renderer.get(Position::new(0, 0)), Some(&Pixel::new('a')));
    frame(&mut renderer);
    assert_eq!(renderer.get(Position::new(0, 0)), Some(&Pixel::empty()));
    renderer.put(Position::new(0, 0), Pixel::new('a'), BlendMode::Replace);
    assert_eq!(frame(&mut renderer), "");
}

#[test]
fn default_colours_open_the_frame_and_resolve_cells() {
    let mut renderer = SurfaceRenderer::new(Size::new(2, 1))
        .default_fg(Color::Named(IndexedColor(7)))
        .default_bg(Color::Rgba(Rgba(0, 0, 1, 255)));
    assert_eq!(
        renderer.default_colors(),
        (Color::Named(IndexedColor(7)), Color::Rgba(Rgba(0, 0, 1, 255)))
    );
    renderer.put(
        Position::new(1, 0),
        Pixel::new('x').fg(Color::Named(IndexedColor(1))),
        BlendMode::Replace,
    );
    assert_eq!(
        frame(&mut renderer),
        "begin\n    move to: 0,0\n    set_default_fg: 7\n    set_default_bg: #000001FF\n    \u{25AA}\n    set_fg: 1\n    x\nend\n"
    );
}

#[test]
fn a_transparent_default_counts_as_none() {
    let mut renderer = SurfaceRenderer::new(Size::new(1, 1));
    renderer.set_default_fg(Color::Transparent);
    RendererSetup::set_default_bg(&mut renderer, Color::Transparent);
    assert_eq!(renderer.default_colors(), (Color::Default, Color::Default));
    let mut basic = BasicRenderer::new(Size::new(1, 1)).default_fg(Color::Transparent);
    basic.set_default_bg(Color::Named(IndexedColor(2)));
    assert_eq!(basic.default_colors(), (Color::Default, Color::Named(IndexedColor(2))));
}

#[test]
fn attributes_are_set_and_reset_once() {
    let mut renderer = SurfaceRenderer::new(Size::new(4, 1));
    frame(&mut renderer);
    let mut bold = Pixel::new('b');
    bold.set_attribute(Some(Attributes::bold()));
    renderer.put(Position::new(0, 0), bold.clone(), BlendMode::Replace);
    renderer.put(Position::new(1, 0), bold, BlendMode::Replace);
    renderer.put(Position::new(2, 0), Pixel::new('p'), BlendMode::Replace);
    renderer.put(Position::new(3, 0), Pixel::new('q'), BlendMode::Replace);
    assert_eq!(
        frame(&mut renderer),
        "begin\n    move to: 0,0\n1\n    bb\n   reset_attribute\n    pq\nend\n"
    );
}

#[test]
fn blending_puts_mix_with_what_was_drawn() {
    let mut renderer = SurfaceRenderer::new(Size::new(1, 1));
    renderer.put(
        Position::new(0, 0),
        Pixel::new('a').bg(Color::Rgba(Rgba(0, 100, 200, 255))),
        BlendMode::Replace,
    );
    renderer.put(
        Position::new(0, 0),
        Pixel::new('b').bg(Color::Rgba(Rgba(200, 100, 0, 128))),
        BlendMode::Blend,
    );
    assert_eq!(
        renderer.get(Position::new(0, 0)),
        Some(&Pixel::new('b').bg(Color::Rgba(Rgba(100, 100, 99, 128))))
    );
    renderer.put(Position::new(0, 0), Pixel::new('c'), BlendMode::Replace);
    assert_eq!(renderer.get(Position::new(0, 0)), Some(&Pixel::new('c')));
}

#[test]
fn resizing_to_the_same_size_changes_nothing() {
    let mut renderer = SurfaceRenderer::new(Size::new(2, 1));
    frame(&mut renderer);
    renderer.put(Position::new(0, 0), Pixel::new('a'), BlendMode::Replace);
    renderer.resize(Size::new(2, 1), ResizeMode::Discard);
    assert_eq!(frame(&mut renderer), "begin\n    move to: 0,0\n    a\nend\n");
}

#[test]
fn resize_keep_repaints_only_the_new_cells() {
    let mut renderer = SurfaceRenderer::new(Size::new(2, 1));
    frame(&mut renderer);
    renderer.resize(Size::new(3, 2), ResizeMode::Keep);
    assert_eq!(renderer.size(), Size::new(3, 2));
    assert_eq!(
        frame(&mut renderer),
        "begin\n    move to: 2,0\n    \u{25AA}\n    move to: 0,1\n    \u{25AA}\u{25AA}\u{25AA}\nend\n"
    );
}

#[test]
fn resize_discard_to_fewer_rows_repaints_everything() {
    let mut renderer = SurfaceRenderer::new(Size::new(2, 2));
    frame(&mut renderer);
    renderer.put(Position::new(0, 0), Pixel::new('a'), BlendMode::Replace);
    renderer.resize(Size::new(2, 1), ResizeMode::Discard);
    assert_eq!(frame(&mut renderer), "begin\n    move to: 0,0\n    \u{25AA}\u{25AA}\nend\n");
}

#[test]
fn resize_discard_to_more_rows_repaints_everything() {
    let mut renderer = SurfaceRenderer::new(Size::new(2, 1));
    frame(&mut renderer);
    renderer.put(Position::new(0, 0), Pixel::new('a'), BlendMode::Replace);
    renderer.resize(Size::new(2, 2), ResizeMode::Discard);
    assert_eq!(renderer.size(), Size::new(2, 2));
    assert_eq!(renderer.get(Position::new(0, 0)), Some(&Pixel::empty()));
    assert_eq!(
        frame(&mut renderer),
        "begin\n    move to: 0,0\n    \u{25AA}\u{25AA}\n    move to: 0,1\n    \u{25AA}\u{25AA}\nend\n"
    );
}

#[test]
fn resize_discard_to_other_columns_repaints_everything() {
    for width in [1, 3] {
        let mut renderer = SurfaceRenderer::new(Size::new(2, 2));
        renderer.put(Position::new(0, 0), Pixel::new('a'), BlendMode::Replace);
        frame(&mut renderer);
        renderer.resize(Size::new(width, 2), ResizeMode::Discard);
        let blanks = "\u{25AA}".repeat(width as usize);
        assert_eq!(
            frame(&mut renderer),
            format!("begin\n    move to: 0,0\n    {blanks}\n    move to: 0,1\n    {blanks}\nend\n")
        );
    }
}

#[test]
fn the_first_frame_paints_a_cell_that_looks_like_the_mark() {
    let magenta = Color::Rgba(Rgba(0xFF, 0x00, 0xFF, 0xFF));
    let mut renderer = SurfaceRenderer::new(Size::new(1, 1));
    renderer.put(Position::new(0, 0), Pixel::new(' ').bg(magenta), BlendMode::Replace);
    assert_eq!(
        frame(&mut renderer),
        "begin\n    move to: 0,0\n    set_bg: #FF00FFFF\n    \u{25AA}\nend\n"
    );
    assert_eq!(frame(&mut renderer), "begin\n    move to: 0,0\n    \u{25AA}\nend\n");
}

#[test]
fn the_mark_itself_is_painted_when_it_is_drawn() {
    let mut renderer = SurfaceRenderer::new(Size::new(1, 1));
    renderer.put(Position::new(0, 0), Pixel::dirty(), BlendMode::Replace);
    assert_eq!(
        frame(&mut renderer),
        "begin\n    move to: 0,0\n    set_bg: #FF00FFFF\n    \u{25AA}\nend\n"
    );
}

#[test]
fn get_mut_writes_into_the_next_frame() {
    let mut renderer = SurfaceRenderer::new(Size::new(2, 1));
    frame(&mut renderer);
    if let Some(cell) = renderer.get_mut(Position::new(1, 0)) {
        *cell = Pixel::new('m');
    }
    assert!(renderer.get_mut(Position::new(2, 0)).is_none());
    assert_eq!(frame(&mut renderer), "begin\n    move to: 1,0\n    m\nend\n");
}

#[test]
fn fill_stops_at_the_named_corner_and_at_the_grid() {
    let mut renderer = SurfaceRenderer::new(Size::new(4, 3));
    frame(&mut renderer);
    renderer.fill(Position::new(1, 1), Size::new(3, 9), Pixel::new('f'), BlendMode::Replace);
    assert_eq!(
        frame(&mut renderer),
        "begin\n    move to: 1,1\n    ff\n    move to: 1,2\n    ff\nend\n"
    );
    renderer.fill(Position::new(-1, 0), Size::new(3, 3), Pixel::new('f'), BlendMode::Replace);
    renderer.fill(Position::new(3, 0), Size::new(3, 3), Pixel::new('f'), BlendMode::Replace);
    assert_eq!(
        frame(&mut renderer),
        "begin\n    move to: 1,1\n    \u{25AA}\u{25AA}\n    move to: 1,2\n    \u{25AA}\u{25AA}\nend\n"
    );
}

#[test]
fn clear_puts_blank_cells_in_the_default_colours() {
    let mut renderer = SurfaceRenderer::new(Size::new(2, 1)).default_bg(Color::Named(IndexedColor(4)));
    renderer.clear();
    assert_eq!(
        renderer.get(Position::new(1, 0)),
        Some(&Pixel::empty().bg(Color::Named(IndexedColor(4))))
    );
}

#[test]
fn patch_changes_one_cell() {
    let mut renderer = SurfaceRenderer::new(Size::new(2, 1));
    renderer.put(Position::new(1, 0), Pixel::new('a'), BlendMode::Replace);
    renderer.patch(Position::new(1, 0), |cell| cell.fg(Color::Named(IndexedColor(3))));
    renderer.patch(Position::new(5, 0), |_| Pixel::new('z'));
    assert_eq!(
        renderer.get(Position::new(1, 0)),
        Some(&Pixel::new('a').fg(Color::Named(IndexedColor(3))))
    );
    assert_eq!(renderer.get(Position::new(0, 0)), Some(&Pixel::empty()));
}

#[test]
fn lines_include_both_ends() {
    let mut renderer = SurfaceRenderer::new(Size::new(4, 3));
    frame(&mut renderer);
    renderer.horizontal_line(Position::new(9, 1), 1, 2, Pixel::new('-'), BlendMode::Replace);
    renderer.vertical_line(Position::new(3, 9), 0, 2, Pixel::new('|'), BlendMode::Replace);
    renderer.horizontal_line(Position::new(0, 0), 2, 1, Pixel::new('!'), BlendMode::Replace);
    renderer.set(Position::new(0, 0), Pixel::new('+'), BlendMode::Replace);
    assert_eq!(
        frame(&mut renderer),
        "begin\n    move to: 0,0\n    +\n    move to: 3,0\n    |\n    move to: 1,1\n    --|\n    move to: 3,2\n    |\nend\n"
    );
}

#[test]
fn drawing_through_the_compositor_starts_at_the_corner() {
    let mut renderer = SurfaceRenderer::new(Size::new(3, 1));
    frame(&mut renderer);
    Renderer::draw(&mut renderer, "hi", BlendMode::Replace);
    assert_eq!(frame(&mut renderer), "begin\n    move to: 0,0\n    hi\nend\n");
    assert_eq!(Placer::size(&renderer), Size::new(3, 1));
}

#[test]
fn the_basic_compositor_paints_every_cell_every_time() {
    let mut renderer = BasicRenderer::new(Size::new(2, 2));
    renderer.put(
        Position::new(1, 0),
        Pixel::new('x').fg(Color::Named(IndexedColor(1))),
        BlendMode::Blend,
    );
    let first = paint(&mut renderer);
    assert_eq!(
        first,
        "begin\n    move to: 0,0\n    \u{25AA}\n    set_fg: 1\n    x\n    move to: 0,1\n    \u{25AA}\u{25AA}\n    move to: 0,0\nend\n"
    );
    assert_eq!(
        paint(&mut renderer),
        "begin\n    move to: 0,0\n    \u{25AA}\u{25AA}\n    move to: 0,1\n    \u{25AA}\u{25AA}\n    move to: 0,0\nend\n"
    );
}

#[test]
fn the_basic_compositor_replaces_and_resizes() {
    let mut renderer = BasicRenderer::new(Size::new(2, 1));
    renderer.put(Position::new(0, 0), Pixel::new('a'), BlendMode::Replace);
    renderer.put(Position::new(2, 0), Pixel::new('b'), BlendMode::Replace);
    assert_eq!(renderer.get(Position::new(0, 0)), Some(&Pixel::new('a')));
    assert_eq!(renderer.get(Position::new(2, 0)), None);
    renderer.resize(Size::new(2, 1), ResizeMode::Keep);
    assert_eq!(renderer.get(Position::new(0, 0)), Some(&Pixel::new('a')));
    renderer.resize(Size::new(3, 1), ResizeMode::Keep);
    assert_eq!(renderer.size(), Size::new(3, 1));
    assert_eq!(renderer.get(Position::new(0, 0)), Some(&Pixel::empty()));
    assert_eq!(paint(&mut BasicRenderer::new(Size::new(0, 3))), "begin\n    move to: 0,0\nend\n");
}

#[test]
fn patching_an_area_passes_each_position() {
    let mut renderer = SurfaceRenderer::new(Size::new(3, 3));
    frame(&mut renderer);
    renderer.patch_area(Position::new(1, 1), Size::new(9, 2), |at, cell| {
        cell.fg(Color::Named(IndexedColor((at.x * 10 + at.y) as u8)))
    });
    for y in 0..3 {
        for x in 0..3 {
            let expected = if x >= 1 && y == 1 {
                Pixel::empty().fg(Color::Named(IndexedColor((x * 10 + y) as u8)))
            } else {
                Pixel::empty()
            };
            assert_eq!(renderer.get(Position::new(x, y)), Some(&expected));
        }
    }
    renderer.patch_area(Position::new(-1, 0), Size::new(3, 3), |_, _| Pixel::new('n'));
    assert_eq!(renderer.get(Position::new(0, 0)), Some(&Pixel::empty()));
}

#[test]
fn filling_with_a_rule_stays_within_the_grid() {
    let mut renderer = BasicRenderer::new(Size::new(3, 2));
    renderer.fill_with(Position::new(1, 0), Size::new(u32::MAX, u32::MAX), |at| {
        Pixel::new(char::from(b'a' + (at.y * 3 + at.x) as u8))
    });
    assert_eq!(
        paint(&mut renderer),
        "begin\n    move to: 0,0\n    \u{25AA}bc\n    move to: 0,1\n    \u{25AA}ef\n    move to: 0,0\nend\n"
    );
}
