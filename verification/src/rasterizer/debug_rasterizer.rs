//! A sink that turns commands into a trace that people can read.

use std::convert::Infallible;
use vstd::prelude::*;

use super::{Command, Rasterizer};
use crate::attributes::{indexed_bytes, Attributes};
use crate::color::{Color, IndexedColor, Rgba};
use crate::math::{Position, Size};
use crate::text::{
    ascii, chars_of, chars_to_string, decimal, hex_pair, is_whitespace, push_ascii, push_decimal,
    push_hex_pair, push_signed, push_str, signed_decimal, unicode_whitespace,
};

verus! {

/// The state of a trace.
pub struct Trace {
    /// The text so far.
    pub text: Seq<char>,
    /// Whether the text ends in written content that no line break closes.
    pub incomplete: bool,
}

/// The mark that stands for a white space character in written content.
pub open spec fn mark() -> char {
    '\u{25AA}'
}

/// The text of a trace once written content is closed by a line break.
pub open spec fn opened(t: Trace) -> Seq<char> {
    if t.incomplete {
        t.text.push('\n')
    } else {
        t.text
    }
}

/// The line that names a colour: a palette entry by its number, an explicit
/// colour by its eight hexadecimal digits. A colour that is left open has no
/// line.
pub open spec fn color_line(name: Seq<char>, color: Color) -> Seq<char> {
    match color {
        Color::Named(IndexedColor(index)) => "    "@ + name + ": "@ + ascii(decimal(index as nat))
            + "\n"@,
        Color::Rgba(Rgba(r, g, b, a)) => "    "@ + name + ": #"@ + ascii(
            hex_pair(r) + hex_pair(g) + hex_pair(b) + hex_pair(a),
        ) + "\n"@,
        _ => Seq::empty(),
    }
}

/// The numbers `codes`, separated by bars.
pub open spec fn joined(codes: Seq<u8>) -> Seq<char>
    decreases codes.len(),
{
    if codes.len() == 0 {
        Seq::empty()
    } else if codes.len() == 1 {
        ascii(decimal(codes[0] as nat))
    } else {
        joined(codes.drop_last()) + " | "@ + ascii(decimal(codes.last() as nat))
    }
}

/// One character of written content as the trace shows it.
pub open spec fn shown_char(c: char) -> char {
    if unicode_whitespace(c) {
        mark()
    } else {
        c
    }
}

/// One character of written content as the trace shows it, where `blank`
/// tells whether the character is white space: a mark for white space,
/// which would not be seen, and every other character as it is.
pub fn trace_char(c: char, blank: bool) -> (r: char)
    ensures
        r == (if blank {
            mark()
        } else {
            c
        }),
{
    if blank {
        '\u{25AA}'
    } else {
        c
    }
}

/// Written content as the trace shows it: every white space character
/// becomes a mark.
pub open spec fn shown(data: Seq<char>) -> Seq<char> {
    Seq::new(data.len(), |i: int| shown_char(data[i]))
}

/// The line for a position: column, then row.
pub open spec fn place(pos: Position<i32>) -> Seq<char> {
    ascii(signed_decimal(pos.x as int)) + ","@ + ascii(signed_decimal(pos.y as int))
}

/// The trace after a command.
///
/// The start of a frame begins the trace anew. Written content goes on one
/// line, indented, until another command closes it; every other command has
/// a line of its own.
pub open spec fn traced(t: Trace, command: Command) -> Trace {
    match command {
        Command::Begin => Trace { text: "begin\n"@, incomplete: false },
        Command::End => Trace { text: opened(t) + "end\n"@, incomplete: false },
        Command::Clear(pos, size) => Trace {
            text: opened(t) + "    clear "@ + place(pos) + " .. "@ + ascii(
                decimal(size.width as nat),
            ) + ","@ + ascii(decimal(size.height as nat)) + "\n"@,
            incomplete: false,
        },
        Command::ClearScreen(bg, _) => Trace {
            text: opened(t) + color_line("clear_screen"@, bg),
            incomplete: false,
        },
        Command::MoveTo(pos) => Trace {
            text: opened(t) + "    move to: "@ + place(pos) + "\n"@,
            incomplete: false,
        },
        Command::DefaultFg(color) => Trace {
            text: opened(t) + color_line("set_default_fg"@, color),
            incomplete: false,
        },
        Command::DefaultBg(color) => Trace {
            text: opened(t) + color_line("set_default_bg"@, color),
            incomplete: false,
        },
        Command::SetFg(color) => Trace {
            text: opened(t) + color_line("set_fg"@, color),
            incomplete: false,
        },
        Command::SetBg(color) => Trace {
            text: opened(t) + color_line("set_bg"@, color),
            incomplete: false,
        },
        Command::SetAttribute(attribute) => Trace {
            text: opened(t) + joined(indexed_bytes(attribute.bits(), 16)) + "\n"@,
            incomplete: false,
        },
        Command::ResetFg => Trace { text: opened(t) + "   reset_fg\n"@, incomplete: false },
        Command::ResetBg => Trace { text: opened(t) + "   reset_bg\n"@, incomplete: false },
        Command::ResetAttribute => Trace {
            text: opened(t) + "   reset_attribute\n"@,
            incomplete: false,
        },
        Command::Write(data) => Trace {
            text: (if t.incomplete {
                t.text
            } else {
                t.text + "    "@
            }) + shown(data),
            incomplete: true,
        },
    }
}

/// A sink that keeps a readable trace of the frame it is given.
pub struct DebugRasterizer {
    out: Vec<char>,
    incomplete: bool,
    taken: Ghost<Seq<Command>>,
}

impl View for DebugRasterizer {
    type V = Trace;

    closed spec fn view(&self) -> Trace {
        Trace { text: self.out@, incomplete: self.incomplete }
    }
}

impl DebugRasterizer {
    /// The commands taken so far.
    pub closed spec fn log(&self) -> Seq<Command> {
        self.taken@
    }

    /// A sink with an empty trace.
    pub fn new() -> (r: Self)
        ensures
            r@ == (Trace { text: Seq::empty(), incomplete: false }),
            r.log() == Seq::<Command>::empty(),
    {
        Self { out: Vec::new(), incomplete: false, taken: Ghost(Seq::empty()) }
    }

    /// The trace as text.
    pub fn to_string(&self) -> (r: String)
        ensures
            r@ == self@.text,
    {
        chars_to_string(&self.out)
    }

    /// Closes written content by a line break.
    fn next_entry(&mut self)
        ensures
            final(self)@ == (Trace { text: opened(old(self)@), incomplete: false }),
            final(self).log() == old(self).log(),
    {
        if self.incomplete {
            self.out.push('\n');
            self.incomplete = false;
        }
    }

    /// Writes the line that names a colour.
    fn set_color(&mut self, name: &str, color: Color)
        ensures
            final(self)@ == (Trace {
                text: old(self)@.text + color_line(name@, color),
                incomplete: old(self)@.incomplete,
            }),
            final(self).log() == old(self).log(),
    {
        match color {
            Color::Named(IndexedColor(index)) => {
                let mut digits: Vec<u8> = Vec::new();
                push_decimal(&mut digits, index as u64);
                push_str(&mut self.out, "    ");
                push_str(&mut self.out, name);
                push_str(&mut self.out, ": ");
                push_ascii(&mut self.out, &digits);
                push_str(&mut self.out, "\n");
                assert(digits@ =~= decimal(index as nat));
                assert(self.out@ =~= old(self)@.text + color_line(name@, color));
            },
            Color::Rgba(Rgba(r, g, b, a)) => {
                let mut digits: Vec<u8> = Vec::new();
                push_hex_pair(&mut digits, r);
                push_hex_pair(&mut digits, g);
                push_hex_pair(&mut digits, b);
                push_hex_pair(&mut digits, a);
                push_str(&mut self.out, "    ");
                push_str(&mut self.out, name);
                push_str(&mut self.out, ": #");
                push_ascii(&mut self.out, &digits);
                push_str(&mut self.out, "\n");
                assert(digits@ =~= hex_pair(r) + hex_pair(g) + hex_pair(b) + hex_pair(a));
                assert(self.out@ =~= old(self)@.text + color_line(name@, color));
            },
            _ => {
                assert(self.out@ =~= old(self)@.text + color_line(name@, color));
            },
        }
    }

    /// Writes a position: column, then row.
    fn push_place(&mut self, pos: Position<i32>)
        ensures
            final(self)@ == (Trace {
                text: old(self)@.text + place(pos),
                incomplete: old(self)@.incomplete,
            }),
            final(self).log() == old(self).log(),
    {
        let mut x: Vec<u8> = Vec::new();
        push_signed(&mut x, pos.x as i64);
        let mut y: Vec<u8> = Vec::new();
        push_signed(&mut y, pos.y as i64);
        push_ascii(&mut self.out, &x);
        push_str(&mut self.out, ",");
        push_ascii(&mut self.out, &y);
        assert(x@ =~= signed_decimal(pos.x as int));
        assert(y@ =~= signed_decimal(pos.y as int));
        assert(self.out@ =~= old(self)@.text + place(pos));
    }

    /// Writes a number.
    fn push_number(&mut self, n: u32)
        ensures
            final(self)@ == (Trace {
                text: old(self)@.text + ascii(decimal(n as nat)),
                incomplete: old(self)@.incomplete,
            }),
            final(self).log() == old(self).log(),
    {
        let mut digits: Vec<u8> = Vec::new();
        push_decimal(&mut digits, n as u64);
        push_ascii(&mut self.out, &digits);
        assert(digits@ =~= decimal(n as nat));
    }

    /// Writes a fixed text.
    fn push_text(&mut self, text: &str)
        ensures
            final(self)@ == (Trace {
                text: old(self)@.text + text@,
                incomplete: old(self)@.incomplete,
            }),
            final(self).log() == old(self).log(),
    {
        push_str(&mut self.out, text);
    }

    /// Notes that `command` was taken.
    fn note(&mut self, Ghost(command): Ghost<Command>)
        ensures
            final(self)@ == old(self)@,
            final(self).log() == old(self).log().push(command),
    {
        self.taken = Ghost(self.taken@.push(command));
    }
}

impl Default for DebugRasterizer {
    fn default() -> (r: Self)
        ensures
            r@ == (Trace { text: Seq::empty(), incomplete: false }),
    {
        Self::new()
    }
}

impl Rasterizer for DebugRasterizer {
    type Error = Infallible;

    open spec fn commands(&self) -> Seq<Command> {
        self.log()
    }

    /// This sink refuses nothing.
    open spec fn refusals(&self) -> Seq<(Command, Infallible)> {
        Seq::empty()
    }

    fn begin(&mut self) -> (r: Result<(), Self::Error>)
        ensures
            r is Ok,
            final(self)@ == traced(old(self)@, Command::Begin),
    {
        self.out.clear();
        self.incomplete = false;
        self.next_entry();
        self.push_text("begin\n");
        assert(self@.text =~= "begin\n"@);
        self.note(Ghost(Command::Begin));
        Ok(())
    }

    fn end(&mut self) -> (r: Result<(), Self::Error>)
        ensures
            r is Ok,
            final(self)@ == traced(old(self)@, Command::End),
    {
        self.next_entry();
        self.push_text("end\n");
        self.note(Ghost(Command::End));
        Ok(())
    }

    fn clear(&mut self, pos: Position<i32>, size: Size<u32>) -> (r: Result<(), Self::Error>)
        ensures
            r is Ok,
            final(self)@ == traced(old(self)@, Command::Clear(pos, size)),
    {
        self.next_entry();
        self.push_text("    clear ");
        self.push_place(pos);
        self.push_text(" .. ");
        self.push_number(size.width);
        self.push_text(",");
        self.push_number(size.height);
        self.push_text("\n");
        assert(self@.text =~= traced(old(self)@, Command::Clear(pos, size)).text);
        self.note(Ghost(Command::Clear(pos, size)));
        Ok(())
    }

    fn clear_screen(&mut self, bg: Color, size: Size<u32>) -> (r: Result<(), Self::Error>)
        ensures
            r is Ok,
            final(self)@ == traced(old(self)@, Command::ClearScreen(bg, size)),
    {
        self.next_entry();
        self.set_color("clear_screen", bg);
        self.note(Ghost(Command::ClearScreen(bg, size)));
        Ok(())
    }

    fn move_to(&mut self, pos: Position<i32>) -> (r: Result<(), Self::Error>)
        ensures
            r is Ok,
            final(self)@ == traced(old(self)@, Command::MoveTo(pos)),
    {
        self.next_entry();
        self.push_text("    move to: ");
        self.push_place(pos);
        self.push_text("\n");
        assert(self@.text =~= traced(old(self)@, Command::MoveTo(pos)).text);
        self.note(Ghost(Command::MoveTo(pos)));
        Ok(())
    }

    fn default_fg(&mut self, color: Color) -> (r: Result<(), Self::Error>)
        ensures
            r is Ok,
            final(self)@ == traced(old(self)@, Command::DefaultFg(color)),
    {
        self.next_entry();
        self.set_color("set_default_fg", color);
        self.note(Ghost(Command::DefaultFg(color)));
        Ok(())
    }

    fn default_bg(&mut self, color: Color) -> (r: Result<(), Self::Error>)
        ensures
            r is Ok,
            final(self)@ == traced(old(self)@, Command::DefaultBg(color)),
    {
        self.next_entry();
        self.set_color("set_default_bg", color);
        self.note(Ghost(Command::DefaultBg(color)));
        Ok(())
    }

    fn set_fg(&mut self, color: Color) -> (r: Result<(), Self::Error>)
        ensures
            r is Ok,
            final(self)@ == traced(old(self)@, Command::SetFg(color)),
    {
        self.next_entry();
        self.set_color("set_fg", color);
        self.note(Ghost(Command::SetFg(color)));
        Ok(())
    }

    fn set_bg(&mut self, color: Color) -> (r: Result<(), Self::Error>)
        ensures
            r is Ok,
            final(self)@ == traced(old(self)@, Command::SetBg(color)),
    {
        self.next_entry();
        self.set_color("set_bg", color);
        self.note(Ghost(Command::SetBg(color)));
        Ok(())
    }

    fn set_attribute(&mut self, attribute: Attributes) -> (r: Result<(), Self::Error>)
        ensures
            r is Ok,
            final(self)@ == traced(old(self)@, Command::SetAttribute(attribute)),
    {
        self.next_entry();
        let ghost start = self@.text;
        let codes = attribute.as_indexed_bytes();
        let mut i: usize = 0;
        assert(joined(codes@.take(0)) =~= Seq::<char>::empty());
        while i < codes.len()
            invariant
                i <= codes@.len(),
                self.taken == old(self).taken,
                !self.incomplete,
                self@.text == start + joined(codes@.take(i as int)),
            decreases codes@.len() - i,
        {
            if i > 0 {
                self.push_text(" | ");
            }
            self.push_number(codes[i] as u32);
            proof {
                assert(codes@.take(i + 1).drop_last() =~= codes@.take(i as int));
                assert(self@.text =~= start + joined(codes@.take(i + 1)));
            }
            i += 1;
        }
        assert(codes@.take(codes@.len() as int) =~= codes@);
        self.push_text("\n");
        self.note(Ghost(Command::SetAttribute(attribute)));
        Ok(())
    }

    fn reset_fg(&mut self) -> (r: Result<(), Self::Error>)
        ensures
            r is Ok,
            final(self)@ == traced(old(self)@, Command::ResetFg),
    {
        self.next_entry();
        self.push_text("   reset_fg\n");
        self.note(Ghost(Command::ResetFg));
        Ok(())
    }

    fn reset_bg(&mut self) -> (r: Result<(), Self::Error>)
        ensures
            r is Ok,
            final(self)@ == traced(old(self)@, Command::ResetBg),
    {
        self.next_entry();
        self.push_text("   reset_bg\n");
        self.note(Ghost(Command::ResetBg));
        Ok(())
    }

    fn reset_attribute(&mut self) -> (r: Result<(), Self::Error>)
        ensures
            r is Ok,
            final(self)@ == traced(old(self)@, Command::ResetAttribute),
    {
        self.next_entry();
        self.push_text("   reset_attribute\n");
        self.note(Ghost(Command::ResetAttribute));
        Ok(())
    }

    fn write(&mut self, data: &str) -> (r: Result<(), Self::Error>)
        ensures
            r is Ok,
            final(self)@ == traced(old(self)@, Command::Write(data@)),
    {
        if !self.incomplete {
            self.incomplete = true;
            self.push_text("    ");
        }
        let ghost start = self@.text;
        let chars = chars_of(data);
        let mut i: usize = 0;
        assert(shown(data@.take(0)) =~= Seq::<char>::empty());
        while i < chars.len()
            invariant
                i <= chars@.len(),
                chars@ == data@,
                self.taken == old(self).taken,
                self.incomplete,
                self@.text == start + shown(data@.take(i as int)),
            decreases chars@.len() - i,
        {
            let c = chars[i];
            let cluster = trace_char(c, is_whitespace(c));
            self.out.push(cluster);
            assert(self@.text =~= start + shown(data@.take(i + 1)));
            i += 1;
        }
        assert(data@.take(data@.len() as int) =~= data@);
        self.note(Ghost(Command::Write(data@)));
        Ok(())
    }
}

} // verus!
