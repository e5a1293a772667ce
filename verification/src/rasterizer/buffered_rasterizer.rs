//! A sink that turns commands into terminal escape sequences and keeps
//! them in a buffer.

use std::convert::Infallible;
use vstd::prelude::*;

use super::{Command, Rasterizer};
use crate::attributes::{indexed_bytes, Attributes};
use crate::color::{Color, IndexedColor, Rgba};
use crate::math::{Position, Size};
use crate::text::{decimal, push_bytes, push_decimal, push_signed, signed_decimal};

verus! {

/// The bytes that start a control sequence: escape and an opening bracket.
pub open spec fn csi() -> Seq<u8> {
    seq![0x1bu8, 0x5bu8]
}

/// The sequence that switches synchronized output on or off.
pub open spec fn synchronized(on: bool) -> Seq<u8> {
    csi() + seq![0x3fu8, 0x32u8, 0x30u8, 0x32u8, 0x36u8, if on { 0x68u8 } else { 0x6cu8 }]
}

/// The sequence that moves the cursor to a cell: row and column, each
/// counted from one.
pub open spec fn cursor_to(pos: Position<i32>) -> Seq<u8> {
    csi() + signed_decimal(pos.y + 1) + seq![0x3bu8] + signed_decimal(pos.x + 1) + seq![
        0x3bu8,
        0x48u8,
    ]
}

/// The sequence that selects a colour: `base` is 38 for the foreground and
/// 48 for the background. A palette entry is selected by its number and an
/// explicit colour by its red, green and blue; where none is named the
/// terminal's own colour is restored.
pub open spec fn select_color(base: nat, color: Color) -> Seq<u8> {
    match color {
        Color::Named(IndexedColor(index)) => csi() + decimal(base) + seq![0x3bu8, 0x35u8, 0x3bu8]
            + decimal(index as nat) + seq![0x6du8],
        Color::Rgba(Rgba(r, g, b, _)) => csi() + decimal(base) + seq![0x3bu8, 0x32u8, 0x3bu8]
            + decimal(r as nat) + seq![0x3bu8] + decimal(g as nat) + seq![0x3bu8] + decimal(
            b as nat,
        ) + seq![0x6du8],
        _ => sgr((base + 1) as nat),
    }
}

/// The sequence that selects the graphic rendition `code`.
pub open spec fn sgr(code: nat) -> Seq<u8> {
    csi() + decimal(code) + seq![0x6du8]
}

/// The sequences that select each of the renditions `codes` in turn.
pub open spec fn sgr_each(codes: Seq<u8>) -> Seq<u8>
    decreases codes.len(),
{
    if codes.len() == 0 {
        Seq::empty()
    } else {
        sgr_each(codes.drop_last()) + sgr(codes.last() as nat)
    }
}

/// The sequences that switch on the attributes of a set, or the one that
/// switches every attribute off for the reset request.
pub open spec fn select_attributes(attribute: Attributes) -> Seq<u8> {
    if attribute.bits() == 0 {
        sgr(0)
    } else {
        sgr_each(indexed_bytes(attribute.bits(), 16))
    }
}

/// The sequence that clears a rectangle.
pub open spec fn clear_rect(pos: Position<i32>, size: Size<u32>) -> Seq<u8> {
    csi() + signed_decimal(pos.y + 1) + seq![0x3bu8] + signed_decimal(pos.x + 1) + seq![0x3bu8]
        + decimal(size.height as nat) + seq![0x3bu8] + decimal(size.width as nat) + seq![
        0x24u8,
        0x7au8,
    ]
}

/// The sequences that clear the first `rows` rows of a screen to a
/// background: for each row a move to its start, the background, and as
/// many blanks inserted as the screen is wide.
pub open spec fn clear_rows(bg: Color, size: Size<u32>, rows: nat) -> Seq<u8>
    decreases rows,
{
    if rows == 0 {
        Seq::empty()
    } else {
        clear_rows(bg, size, (rows - 1) as nat) + cursor_to(
            Position { x: 0i32, y: (rows - 1) as i32 },
        ) + select_color(48, bg) + csi() + decimal(size.width as nat) + seq![0x40u8]
    }
}

/// The bytes that a command is turned into.
pub open spec fn escape(command: Command) -> Seq<u8> {
    match command {
        Command::Begin => synchronized(true),
        Command::End => synchronized(false),
        Command::Clear(pos, size) => clear_rect(pos, size),
        Command::ClearScreen(bg, size) => clear_rows(bg, size, size.height as nat),
        Command::MoveTo(pos) => cursor_to(pos),
        Command::DefaultFg(color) => select_color(38, color),
        Command::DefaultBg(color) => select_color(48, color),
        Command::SetFg(color) => select_color(38, color),
        Command::SetBg(color) => select_color(48, color),
        Command::SetAttribute(attribute) => select_attributes(attribute),
        Command::ResetFg => sgr(39),
        Command::ResetBg => sgr(49),
        Command::ResetAttribute => sgr(59),
        Command::Write(text) => vstd::utf8::encode_utf8(text),
    }
}

/// A sink that keeps the escape sequences of the commands it takes until
/// they are copied out.
pub struct BufferedRasterizer {
    inner: Vec<u8>,
    taken: Ghost<Seq<Command>>,
}

fn push_csi(out: &mut Vec<u8>)
    ensures
        final(out)@ == old(out)@ + csi(),
{
    out.push(0x1b);
    out.push(0x5b);
    assert(out@ =~= old(out)@ + csi());
}

fn push_sgr(out: &mut Vec<u8>, code: u8)
    ensures
        final(out)@ == old(out)@ + sgr(code as nat),
{
    push_csi(out);
    push_decimal(out, code as u64);
    out.push(0x6d);
    assert(out@ =~= old(out)@ + sgr(code as nat));
}

fn push_cursor_to(out: &mut Vec<u8>, pos: Position<i32>)
    ensures
        final(out)@ == old(out)@ + cursor_to(pos),
{
    push_csi(out);
    push_signed(out, pos.y as i64 + 1);
    out.push(0x3b);
    push_signed(out, pos.x as i64 + 1);
    out.push(0x3b);
    out.push(0x48);
    assert(out@ =~= old(out)@ + cursor_to(pos));
}

fn push_color(out: &mut Vec<u8>, base: u8, color: Color)
    requires
        base < 255,
    ensures
        final(out)@ == old(out)@ + select_color(base as nat, color),
{
    match color {
        Color::Named(IndexedColor(index)) => {
            push_csi(out);
            push_decimal(out, base as u64);
            out.push(0x3b);
            out.push(0x35);
            out.push(0x3b);
            push_decimal(out, index as u64);
            out.push(0x6d);
            assert(out@ =~= old(out)@ + select_color(base as nat, color));
        },
        Color::Rgba(Rgba(r, g, b, _)) => {
            push_csi(out);
            push_decimal(out, base as u64);
            out.push(0x3b);
            out.push(0x32);
            out.push(0x3b);
            push_decimal(out, r as u64);
            out.push(0x3b);
            push_decimal(out, g as u64);
            out.push(0x3b);
            push_decimal(out, b as u64);
            out.push(0x6d);
            assert(out@ =~= old(out)@ + select_color(base as nat, color));
        },
        _ => {
            push_sgr(out, base + 1);
        },
    }
}

impl BufferedRasterizer {
    /// The bytes that wait to be copied out.
    pub closed spec fn bytes(&self) -> Seq<u8> {
        self.inner@
    }

    /// The commands taken so far.
    pub closed spec fn log(&self) -> Seq<Command> {
        self.taken@
    }

    /// A sink with an empty buffer.
    pub fn new() -> (r: Self)
        ensures
            r.bytes() == Seq::<u8>::empty(),
            r.log() == Seq::<Command>::empty(),
    {
        Self { inner: Vec::new(), taken: Ghost(Seq::empty()) }
    }

    /// A sink with an empty buffer that has room for `capacity` bytes.
    pub fn with_capacity(capacity: usize) -> (r: Self)
        ensures
            r.bytes() == Seq::<u8>::empty(),
            r.log() == Seq::<Command>::empty(),
    {
        Self { inner: Vec::with_capacity(capacity), taken: Ghost(Seq::empty()) }
    }

    /// Appends the bytes that wait to `out` and empties the buffer.
    pub fn copy_to(&mut self, out: &mut Vec<u8>)
        ensures
            final(out)@ == old(out)@ + old(self).bytes(),
            final(self).bytes() == Seq::<u8>::empty(),
            final(self).log() == old(self).log(),
    {
        push_bytes(out, self.inner.as_slice());
        self.inner.clear();
    }

    /// Notes that `command` was taken.
    fn note(&mut self, Ghost(command): Ghost<Command>)
        ensures
            final(self).bytes() == old(self).bytes(),
            final(self).log() == old(self).log().push(command),
    {
        self.taken = Ghost(self.taken@.push(command));
    }
}

impl Rasterizer for BufferedRasterizer {
    type Error = Infallible;

    open spec fn commands(&self) -> Seq<Command> {
        self.log()
    }

    /// This sink refuses nothing.
    open spec fn refusals(&self) -> Seq<(Command, Infallible)> {
        Seq::empty()
    }

    fn begin(&mut self) -> (r: Result<(), Self::Error>)
        ensures
            r is Ok,
            final(self).bytes() == old(self).bytes() + escape(Command::Begin),
    {
        push_csi(&mut self.inner);
        push_bytes(&mut self.inner, [0x3fu8, 0x32, 0x30, 0x32, 0x36, 0x68].as_slice());
        assert(self.inner@ =~= old(self).bytes() + synchronized(true));
        self.note(Ghost(Command::Begin));
        Ok(())
    }

    fn end(&mut self) -> (r: Result<(), Self::Error>)
        ensures
            r is Ok,
            final(self).bytes() == old(self).bytes() + escape(Command::End),
    {
        push_csi(&mut self.inner);
        push_bytes(&mut self.inner, [0x3fu8, 0x32, 0x30, 0x32, 0x36, 0x6c].as_slice());
        assert(self.inner@ =~= old(self).bytes() + synchronized(false));
        self.note(Ghost(Command::End));
        Ok(())
    }

    fn clear(&mut self, pos: Position<i32>, size: Size<u32>) -> (r: Result<(), Self::Error>)
        ensures
            r is Ok,
            final(self).bytes() == old(self).bytes() + escape(Command::Clear(pos, size)),
    {
        push_csi(&mut self.inner);
        push_signed(&mut self.inner, pos.y as i64 + 1);
        self.inner.push(0x3b);
        push_signed(&mut self.inner, pos.x as i64 + 1);
        self.inner.push(0x3b);
        push_decimal(&mut self.inner, size.height as u64);
        self.inner.push(0x3b);
        push_decimal(&mut self.inner, size.width as u64);
        self.inner.push(0x24);
        self.inner.push(0x7a);
        assert(self.inner@ =~= old(self).bytes() + clear_rect(pos, size));
        self.note(Ghost(Command::Clear(pos, size)));
        Ok(())
    }

    fn clear_screen(&mut self, bg: Color, size: Size<u32>) -> (r: Result<(), Self::Error>)
        ensures
            r is Ok,
            final(self).bytes() == old(self).bytes() + escape(Command::ClearScreen(bg, size)),
    {
        let mut y: u32 = 0;
        while y < size.height
            invariant
                y <= size.height,
                size.height <= i32::MAX,
                self.taken == old(self).taken,
                self.inner@ == old(self).bytes() + clear_rows(bg, size, y as nat),
            decreases size.height - y,
        {
            push_cursor_to(&mut self.inner, Position { x: 0, y: y as i32 });
            push_color(&mut self.inner, 48, bg);
            push_csi(&mut self.inner);
            push_decimal(&mut self.inner, size.width as u64);
            self.inner.push(0x40);
            y += 1;
            assert(self.inner@ =~= old(self).bytes() + clear_rows(bg, size, y as nat));
        }
        self.note(Ghost(Command::ClearScreen(bg, size)));
        Ok(())
    }

    fn move_to(&mut self, pos: Position<i32>) -> (r: Result<(), Self::Error>)
        ensures
            r is Ok,
            final(self).bytes() == old(self).bytes() + escape(Command::MoveTo(pos)),
    {
        push_cursor_to(&mut self.inner, pos);
        self.note(Ghost(Command::MoveTo(pos)));
        Ok(())
    }

    fn default_fg(&mut self, color: Color) -> (r: Result<(), Self::Error>)
        ensures
            r is Ok,
            final(self).bytes() == old(self).bytes() + escape(Command::DefaultFg(color)),
    {
        push_color(&mut self.inner, 38, color);
        self.note(Ghost(Command::DefaultFg(color)));
        Ok(())
    }

    fn default_bg(&mut self, color: Color) -> (r: Result<(), Self::Error>)
        ensures
            r is Ok,
            final(self).bytes() == old(self).bytes() + escape(Command::DefaultBg(color)),
    {
        push_color(&mut self.inner, 48, color);
        self.note(Ghost(Command::DefaultBg(color)));
        Ok(())
    }

    fn set_fg(&mut self, color: Color) -> (r: Result<(), Self::Error>)
        ensures
            r is Ok,
            final(self).bytes() == old(self).bytes() + escape(Command::SetFg(color)),
    {
        push_color(&mut self.inner, 38, color);
        self.note(Ghost(Command::SetFg(color)));
        Ok(())
    }

    fn set_bg(&mut self, color: Color) -> (r: Result<(), Self::Error>)
        ensures
            r is Ok,
            final(self).bytes() == old(self).bytes() + escape(Command::SetBg(color)),
    {
        push_color(&mut self.inner, 48, color);
        self.note(Ghost(Command::SetBg(color)));
        Ok(())
    }

    fn set_attribute(&mut self, attribute: Attributes) -> (r: Result<(), Self::Error>)
        ensures
            r is Ok,
            final(self).bytes() == old(self).bytes() + escape(Command::SetAttribute(attribute)),
    {
        let codes = attribute.as_indexed_bytes();
        if codes.len() == 0 {
            proof {
                lemma_indexed_bytes_empty(attribute.bits());
            }
            push_sgr(&mut self.inner, 0);
        } else {
            proof {
                lemma_indexed_bytes_empty(attribute.bits());
            }
            let mut i: usize = 0;
            assert(sgr_each(codes@.take(0)) =~= Seq::<u8>::empty());
            while i < codes.len()
                invariant
                    i <= codes@.len(),
                    self.taken == old(self).taken,
                    self.inner@ == old(self).bytes() + sgr_each(codes@.take(i as int)),
                decreases codes@.len() - i,
            {
                push_sgr(&mut self.inner, codes[i]);
                proof {
                    assert(codes@.take(i + 1).drop_last() =~= codes@.take(i as int));
                    assert(self.inner@ =~= old(self).bytes() + sgr_each(codes@.take(i + 1)));
                }
                i += 1;
            }
            assert(codes@.take(codes@.len() as int) =~= codes@);
        }
        self.note(Ghost(Command::SetAttribute(attribute)));
        Ok(())
    }

    fn reset_fg(&mut self) -> (r: Result<(), Self::Error>)
        ensures
            r is Ok,
            final(self).bytes() == old(self).bytes() + escape(Command::ResetFg),
    {
        push_sgr(&mut self.inner, 39);
        self.note(Ghost(Command::ResetFg));
        Ok(())
    }

    fn reset_bg(&mut self) -> (r: Result<(), Self::Error>)
        ensures
            r is Ok,
            final(self).bytes() == old(self).bytes() + escape(Command::ResetBg),
    {
        push_sgr(&mut self.inner, 49);
        self.note(Ghost(Command::ResetBg));
        Ok(())
    }

    fn reset_attribute(&mut self) -> (r: Result<(), Self::Error>)
        ensures
            r is Ok,
            final(self).bytes() == old(self).bytes() + escape(Command::ResetAttribute),
    {
        push_sgr(&mut self.inner, 59);
        self.note(Ghost(Command::ResetAttribute));
        Ok(())
    }

    fn write(&mut self, data: &str) -> (r: Result<(), Self::Error>)
        ensures
            r is Ok,
            final(self).bytes() == old(self).bytes() + escape(Command::Write(data@)),
    {
        push_bytes(&mut self.inner, data.as_bytes());
        self.note(Ghost(Command::Write(data@)));
        Ok(())
    }
}

/// A set of flags has no selecting number exactly if it is empty.
pub proof fn lemma_indexed_bytes_empty(bits: u16)
    ensures
        indexed_bytes(bits, 16).len() == 0 <==> bits == 0,
{
    reveal_with_fuel(indexed_bytes, 17);
    if bits == 0 {
        assert(forall|k: u16| k < 16 ==> 0u16 & (1u16 << k) == 0) by (bit_vector);
    } else {
        assert(bits & (1u16 << 0u16) != 0 || bits & (1u16 << 1u16) != 0 || bits & (1u16 << 2u16) != 0 || bits & (1u16 << 3u16) != 0 || bits & (1u16 << 4u16) != 0 || bits & (1u16 << 5u16) != 0 || bits & (1u16 << 6u16) != 0 || bits & (1u16 << 7u16) != 0 || bits & (1u16 << 8u16) != 0 || bits & (1u16 << 9u16) != 0 || bits & (1u16 << 10u16) != 0 || bits & (1u16 << 11u16) != 0 || bits & (1u16 << 12u16) != 0 || bits & (1u16 << 13u16) != 0 || bits & (1u16 << 14u16) != 0 || bits & (1u16 << 15u16) != 0) by (bit_vector)
            requires
                bits != 0,
        ;
    }
}

} // verus!
