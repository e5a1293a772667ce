use mars::rasterizer::{BufferedRasterizer, DebugRasterizer};
use mars::{Attributes, Color, IndexedColor, Position, Rasterizer, Rgba, Size};

#[test]
fn the_trace_shows_white_space_as_a_mark() {
    assert_eq!(mars::rasterizer::debug_rasterizer::trace_char(' ', true), '\u{25AA}');
    assert_eq!(mars::rasterizer::debug_rasterizer::trace_char('\n', true), '\u{25AA}');
    assert_eq!(mars::rasterizer::debug_rasterizer::trace_char('a', false), 'a');
    assert_eq!(mars::rasterizer::debug_rasterizer::trace_char('\u{25AA}', false), '\u{25AA}');
    assert_eq!(trace_of(|sink| sink.write("a b\u{A0}c\td").unwrap()), "    a\u{25AA}b\u{25AA}c\u{25AA}d");
}

fn bytes_of(run: impl FnOnce(&mut BufferedRasterizer)) -> String {
    let mut sink = BufferedRasterizer::new();
    run(&mut sink);
    let mut out = Vec::new();
    sink.copy_to(&mut out);
    String::from_utf8(out).unwrap()
}

fn trace_of(run: impl FnOnce(&mut DebugRasterizer)) -> String {
    let mut sink = DebugRasterizer::new();
    run(&mut sink);
    sink.to_string()
}

#[test]
fn escape_frame_marks() {
    assert_eq!(bytes_of(|s| s.begin().unwrap()), "\x1b[?2026h");
    assert_eq!(bytes_of(|s| s.end().unwrap()), "\x1b[?2026l");
}

#[test]
fn escape_cursor_moves_count_from_one() {
    assert_eq!(bytes_of(|s| s.move_to(Position::new(0, 0)).unwrap()), "\x1b[1;1;H");
    assert_eq!(bytes_of(|s| s.move_to(Position::new(9, 41)).unwrap()), "\x1b[42;10;H");
    assert_eq!(bytes_of(|s| s.move_to(Position::new(-3, -1)).unwrap()), "\x1b[0;-2;H");
    assert_eq!(
        bytes_of(|s| s.move_to(Position::new(i32::MAX, i32::MIN)).unwrap()),
        "\x1b[-2147483647;2147483648;H"
    );
}

#[test]
fn escape_colours() {
    let named = Color::Named(IndexedColor(196));
    let explicit = Color::Rgba(Rgba(1, 20, 255, 7));
    assert_eq!(bytes_of(|s| s.set_fg(named).unwrap()), "\x1b[38;5;196m");
    assert_eq!(bytes_of(|s| s.set_bg(named).unwrap()), "\x1b[48;5;196m");
    assert_eq!(bytes_of(|s| s.set_fg(explicit).unwrap()), "\x1b[38;2;1;20;255m");
    assert_eq!(bytes_of(|s| s.set_bg(explicit).unwrap()), "\x1b[48;2;1;20;255m");
    assert_eq!(bytes_of(|s| s.set_fg(Color::Default).unwrap()), "\x1b[39m");
    assert_eq!(bytes_of(|s| s.set_bg(Color::Default).unwrap()), "\x1b[49m");
    assert_eq!(bytes_of(|s| s.set_fg(Color::Transparent).unwrap()), "\x1b[39m");
    assert_eq!(bytes_of(|s| s.default_fg(named).unwrap()), "\x1b[38;5;196m");
    assert_eq!(bytes_of(|s| s.default_bg(explicit).unwrap()), "\x1b[48;2;1;20;255m");
    assert_eq!(bytes_of(|s| s.reset_fg().unwrap()), "\x1b[39m");
    assert_eq!(bytes_of(|s| s.reset_bg().unwrap()), "\x1b[49m");
}

#[test]
fn escape_attributes() {
    let set = Attributes::bold() | Attributes::underline() | Attributes::strikeout();
    assert_eq!(bytes_of(|s| s.set_attribute(set).unwrap()), "\x1b[1m\x1b[4m\x1b[9m");
    assert_eq!(bytes_of(|s| s.set_attribute(Attributes::reset()).unwrap()), "\x1b[0m");
    assert_eq!(bytes_of(|s| s.reset_attribute().unwrap()), "\x1b[59m");
}

#[test]
fn escape_clears() {
    assert_eq!(
        bytes_of(|s| s.clear(Position::new(2, 4), Size::new(10, 3)).unwrap()),
        "\x1b[5;3;3;10$z"
    );
    assert_eq!(
        bytes_of(|s| s.clear_screen(Color::Named(IndexedColor(4)), Size::new(7, 2)).unwrap()),
        "\x1b[1;1;H\x1b[48;5;4m\x1b[7@\x1b[2;1;H\x1b[48;5;4m\x1b[7@"
    );
    assert_eq!(bytes_of(|s| s.clear_screen(Color::Default, Size::new(7, 0)).unwrap()), "");
}

#[test]
fn escape_text_is_written_as_utf8() {
    assert_eq!(bytes_of(|s| s.write("a\u{e9}\u{25AA} b").unwrap()), "a\u{e9}\u{25AA} b");
}

#[test]
fn the_buffer_is_emptied_by_copying() {
    let mut sink = BufferedRasterizer::with_capacity(16);
    sink.write("ab").unwrap();
    let mut out = vec![b'>'];
    sink.copy_to(&mut out);
    assert_eq!(out, b">ab");
    sink.write("c").unwrap();
    sink.copy_to(&mut out);
    assert_eq!(out, b">abc");
    sink.copy_to(&mut out);
    assert_eq!(out, b">abc");
}

#[test]
fn trace_lines() {
    assert_eq!(trace_of(|s| s.begin().unwrap()), "begin\n");
    assert_eq!(trace_of(|s| s.end().unwrap()), "end\n");
    assert_eq!(trace_of(|s| s.move_to(Position::new(3, -4)).unwrap()), "    move to: 3,-4\n");
    assert_eq!(
        trace_of(|s| s.clear(Position::new(1, 2), Size::new(30, 4)).unwrap()),
        "    clear 1,2 .. 30,4\n"
    );
    assert_eq!(trace_of(|s| s.reset_fg().unwrap()), "   reset_fg\n");
    assert_eq!(trace_of(|s| s.reset_bg().unwrap()), "   reset_bg\n");
    assert_eq!(trace_of(|s| s.reset_attribute().unwrap()), "   reset_attribute\n");
}

#[test]
fn trace_colours() {
    let named = Color::Named(IndexedColor(12));
    let explicit = Color::Rgba(Rgba(0xAB, 0x01, 0xF0, 0x9C));
    assert_eq!(trace_of(|s| s.set_fg(named).unwrap()), "    set_fg: 12\n");
    assert_eq!(trace_of(|s| s.set_bg(explicit).unwrap()), "    set_bg: #AB01F09C\n");
    assert_eq!(trace_of(|s| s.default_fg(named).unwrap()), "    set_default_fg: 12\n");
    assert_eq!(trace_of(|s| s.default_bg(explicit).unwrap()), "    set_default_bg: #AB01F09C\n");
    assert_eq!(
        trace_of(|s| s.clear_screen(named, Size::new(1, 1)).unwrap()),
        "    clear_screen: 12\n"
    );
    assert_eq!(trace_of(|s| s.set_fg(Color::Default).unwrap()), "");
    assert_eq!(trace_of(|s| s.set_bg(Color::Transparent).unwrap()), "");
}

#[test]
fn trace_attributes() {
    let set = Attributes::bold() | Attributes::blink() | Attributes::strikeout();
    assert_eq!(trace_of(|s| s.set_attribute(set).unwrap()), "1 | 5 | 9\n");
    assert_eq!(trace_of(|s| s.set_attribute(Attributes::italic()).unwrap()), "3\n");
    assert_eq!(trace_of(|s| s.set_attribute(Attributes::reset()).unwrap()), "\n");
}

#[test]
fn trace_written_content_stays_on_one_line() {
    let text = trace_of(|s| {
        s.write("a b").unwrap();
        s.write("\tc").unwrap();
        s.move_to(Position::new(0, 1)).unwrap();
        s.write("d").unwrap();
        s.end().unwrap();
    });
    assert_eq!(
        text,
        "    a\u{25AA}b\u{25AA}c\n    move to: 0,1\n    d\nend\n"
    );
}

#[test]
fn trace_starts_anew_with_a_frame() {
    let text = trace_of(|s| {
        s.write("old").unwrap();
        s.begin().unwrap();
        s.write("new").unwrap();
    });
    assert_eq!(text, "begin\n    new");
    assert_eq!(DebugRasterizer::default().to_string(), "");
}
