use mars::drawable::layout::measure_text;
use mars::renderer::recorder::Placed;
use mars::renderer::Recorder;
use mars::{
    Anchor2, BlendMode, Color, Drawable, DrawableExt, IndexedColor, Pixel, Position, Rgba, Size,
};

fn record<D: Drawable>(content: &D, size: Size, pos: Position) -> Vec<(i32, i32, String)> {
    let mut recorder = Recorder::new(size);
    content.draw(&mut recorder, pos, BlendMode::Replace);
    recorder
        .into_items()
        .into_iter()
        .map(|Placed { pos, pixel, .. }| (pos.x, pos.y, pixel.text()))
        .collect()
}

fn cell(x: i32, y: i32, text: &str) -> (i32, i32, String) {
    (x, y, text.to_string())
}

#[test]
fn text_takes_its_longest_line_and_its_line_count() {
    assert_eq!("ab\ncde".size(Size::new(10, 10)), Size::new(3, 2));
    assert_eq!("abc".size(Size::new(10, 10)), Size::new(3, 1));
    assert_eq!("ab\n".size(Size::new(10, 10)), Size::new(2, 2));
    assert_eq!("".size(Size::new(10, 10)), Size::new(0, 0));
    assert_eq!(String::from("ab\ncde").size(Size::new(10, 10)), Size::new(3, 2));
}

#[test]
fn text_stops_at_the_width_of_the_room() {
    assert_eq!("abcdef".size(Size::new(4, 10)), Size::new(4, 1));
    assert_eq!(
        record(&"abcdef", Size::new(4, 10), Position::new(0, 0)),
        vec![cell(0, 0, "a"), cell(1, 0, "b"), cell(2, 0, "c"), cell(3, 0, "d")]
    );
    assert_eq!("abcdef\ngh".size(Size::new(4, 10)), Size::new(4, 1));
    assert_eq!("abcd\ngh".size(Size::new(4, 10)), Size::new(4, 2));
    assert_eq!("abc".size(Size::new(0, 10)), Size::new(0, 1));
}

#[test]
fn text_stops_at_the_height_of_the_room() {
    assert_eq!("a\nb\nc".size(Size::new(10, 2)), Size::new(1, 2));
    assert_eq!(
        record(&"a\nb\nc", Size::new(10, 2), Position::new(0, 0)),
        vec![cell(0, 0, "a"), cell(0, 1, "b")]
    );
    assert_eq!("a\nb".size(Size::new(10, 1)), Size::new(1, 1));
    assert_eq!("a\nb".size(Size::new(10, 0)), Size::new(1, 1));
}

#[test]
fn text_is_laid_out_from_its_position() {
    assert_eq!(
        record(&"ab\nc", Size::new(10, 10), Position::new(2, 3)),
        vec![cell(2, 3, "a"), cell(3, 3, "b"), cell(2, 4, "c")]
    );
    let (size, cells) = measure_text("ab\nc", Size::new(10, 10));
    assert_eq!(size, Size::new(2, 2));
    assert_eq!(cells.len(), 3);
    assert_eq!((cells[2].x, cells[2].y, cells[2].c), (0, 1, 'c'));
}

#[test]
fn single_cells() {
    assert_eq!(record(&'x', Size::new(3, 3), Position::new(1, 1)), vec![cell(1, 1, "x")]);
    assert_eq!('x'.size(Size::new(0, 0)), Size::new(1, 1));
    assert_eq!(
        record(&Pixel::new_str("ab"), Size::new(3, 3), Position::new(1, 1)),
        vec![cell(1, 1, "ab")]
    );
    assert_eq!(Pixel::new('x').size(Size::new(3, 3)), Size::new(1, 1));
    assert_eq!(Pixel::new_str("ab\nc").size(Size::new(3, 3)), Size::new(2, 2));
    assert_eq!(record(&(), Size::new(3, 3), Position::new(1, 1)), vec![]);
    assert_eq!(().size(Size::new(3, 3)), Size::new(0, 0));
    assert_eq!(Rgba(1, 2, 3, 4).size(Size::new(3, 3)), Size::new(0, 0));
}

#[test]
fn a_colour_draws_a_blank_cell_on_it() {
    let mut recorder = Recorder::new(Size::new(3, 3));
    Rgba(1, 2, 3, 4).draw(&mut recorder, Position::new(2, 0), BlendMode::Blend);
    let items = recorder.into_items();
    assert_eq!(items.len(), 1);
    assert_eq!(items[0].pos, Position::new(2, 0));
    assert_eq!(items[0].pixel, Pixel::empty().bg(Color::Rgba(Rgba(1, 2, 3, 4))));
    assert_eq!(items[0].blend, BlendMode::Blend);
}

#[test]
fn colour_adapters_restyle_every_cell() {
    let red = Color::Named(IndexedColor::red());
    let blue = Color::Named(IndexedColor::blue());
    let text = "ab";
    let styled = text.with_fg(red);
    let both = styled.with_bg(blue);
    let mut recorder = Recorder::new(Size::new(5, 5));
    both.draw(&mut recorder, Position::new(0, 0), BlendMode::Replace);
    let items = recorder.into_items();
    assert_eq!(items.len(), 2);
    assert_eq!(items[0].pixel, Pixel::new('a').fg(red).bg(blue));
    assert_eq!(items[1].pixel, Pixel::new('b').fg(red).bg(blue));
    assert_eq!(both.size(Size::new(5, 5)), Size::new(2, 1));
}

#[test]
fn the_outer_colour_adapter_wins() {
    let red = Color::Named(IndexedColor::red());
    let blue = Color::Named(IndexedColor::blue());
    let inner = 'x'.with_fg(red);
    let outer = inner.with_fg(blue);
    let mut recorder = Recorder::new(Size::new(5, 5));
    outer.draw(&mut recorder, Position::new(0, 0), BlendMode::Replace);
    assert_eq!(recorder.into_items()[0].pixel, Pixel::new('x').fg(blue));
}

#[test]
fn an_offset_moves_the_content() {
    let text = "ab";
    let moved = text.with_offset(Position::new(2, -1));
    assert_eq!(
        record(&moved, Size::new(5, 5), Position::new(1, 1)),
        vec![cell(3, 0, "a"), cell(4, 0, "b")]
    );
    assert_eq!(moved.size(Size::new(5, 5)), Size::new(2, 1));
}

#[test]
fn an_anchor_places_content_in_its_room() {
    let text = "abcd";
    let centered = text.with_anchor(Anchor2::center_center());
    assert_eq!(
        record(&centered, Size::new(10, 4), Position::new(0, 0)),
        vec![cell(3, 2, "a"), cell(4, 2, "b"), cell(5, 2, "c"), cell(6, 2, "d")]
    );
    let corner = text.with_anchor(Anchor2::right_bottom());
    assert_eq!(corner.size(Size::new(10, 4)), Size::new(6, 3));
    assert_eq!(
        record(&corner, Size::new(10, 4), Position::new(1, 0)),
        vec![cell(7, 3, "a"), cell(8, 3, "b"), cell(9, 3, "c"), cell(10, 3, "d")]
    );
    let start = text.with_anchor(Anchor2::left_top());
    assert_eq!(start.size(Size::new(10, 4)), Size::new(0, 0));
}

#[test]
fn a_reference_draws_as_its_target() {
    let text = "ab";
    assert_eq!(
        record(&&text, Size::new(5, 5), Position::new(0, 0)),
        record(&text, Size::new(5, 5), Position::new(0, 0))
    );
}

#[test]
fn rendering_draws_at_the_corner() {
    let mut recorder = Recorder::new(Size::new(5, 5));
    "ab".render(&mut recorder, BlendMode::Replace);
    let items = recorder.into_items();
    assert_eq!(items.len(), 2);
    assert_eq!(items[1].pos, Position::new(1, 0));
}
