//! The layout of text: one character per cell, a new row at every line
//! break.

use vstd::prelude::*;

use crate::math::{Position, Size};
use crate::text::chars_of;

verus! {

/// Where the layout of a text stands.
pub struct Cursor {
    /// The column of the next character.
    pub dx: int,
    /// The row of the next character.
    pub dy: int,
    /// The length of the longest row so far.
    pub w: int,
    /// Whether the layout has stopped for want of room.
    pub stopped: bool,
}

/// A character and the cell that it is laid out in, counted from the start
/// of the text.
pub struct Laid {
    pub x: int,
    pub y: int,
    pub c: char,
}

/// Whether the layout places `c`, from where it stands.
pub open spec fn places(at: Cursor, c: char, size: Size<u32>) -> bool {
    !at.stopped && c != '\n' && at.dx < size.width
}

/// Where the layout stands after `c`.
///
/// A line break starts a new row, unless the rows would then be more than
/// the room is high: then the layout stops. Another character takes the
/// next column, unless the row would then be longer than the room is wide:
/// then the layout stops as well.
pub open spec fn advance(at: Cursor, c: char, size: Size<u32>) -> Cursor {
    if at.stopped {
        at
    } else if c == '\n' {
        if at.dy + 1 >= size.height {
            Cursor { stopped: true, ..at }
        } else {
            Cursor { dx: 0, dy: at.dy + 1, ..at }
        }
    } else if at.dx >= size.width {
        Cursor { stopped: true, ..at }
    } else {
        Cursor { dx: at.dx + 1, w: if at.w >= at.dx + 1 { at.w } else { at.dx + 1 }, ..at }
    }
}

/// Where the layout stands after the first `n` characters of `s`.
pub open spec fn cursor_after(s: Seq<char>, size: Size<u32>, n: nat) -> Cursor
    decreases n,
{
    if n == 0 {
        Cursor { dx: 0, dy: 0, w: 0, stopped: false }
    } else {
        advance(cursor_after(s, size, (n - 1) as nat), s[n - 1], size)
    }
}

/// The character `c` in the cell at which the layout stands.
pub open spec fn laid_at(at: Cursor, c: char) -> Laid {
    Laid { x: at.dx, y: at.dy, c }
}

/// The characters among the first `n` of `s` that the layout places, each
/// with its cell.
pub open spec fn laid_out(s: Seq<char>, size: Size<u32>, n: nat) -> Seq<Laid>
    decreases n,
{
    if n == 0 {
        Seq::empty()
    } else {
        let before = laid_out(s, size, (n - 1) as nat);
        let at = cursor_after(s, size, (n - 1) as nat);
        if places(at, s[n - 1], size) {
            before.push(laid_at(at, s[n - 1]))
        } else {
            before
        }
    }
}

/// The characters of a text that the layout places in a room of the given
/// size, each with its cell.
pub open spec fn text_cells(s: Seq<char>, size: Size<u32>) -> Seq<Laid> {
    laid_out(s, size, s.len())
}

/// The room that a text takes: as wide as its longest row and as high as
/// the number of its rows, the last one counted whether or not a line break
/// ends it. A text without any character takes no room.
pub open spec fn text_size(s: Seq<char>, size: Size<u32>) -> Size<u32> {
    if s.len() == 0 {
        Size { width: 0, height: 0 }
    } else {
        let end = cursor_after(s, size, s.len());
        Size { width: end.w as u32, height: (end.dy + 1) as u32 }
    }
}

/// Whether every cell that a text can take in a room of the given size,
/// drawn at `pos`, has coordinates that a position can hold.
pub open spec fn text_fits(size: Size<u32>, pos: Position<i32>) -> bool {
    pos.x + size.width <= i32::MAX && pos.y + size.height <= i32::MAX
}

/// The layout stays within the room: no row is longer than the room is
/// wide, and the rows are no more than the room is high, but for the one row
/// that any text has.
pub proof fn lemma_cursor_bounds(s: Seq<char>, size: Size<u32>, n: nat)
    ensures
        0 <= cursor_after(s, size, n).dx <= cursor_after(s, size, n).w <= size.width,
        0 <= cursor_after(s, size, n).dy,
        cursor_after(s, size, n).dy == 0 || cursor_after(s, size, n).dy < size.height,
    decreases n,
{
    if n > 0 {
        lemma_cursor_bounds(s, size, (n - 1) as nat);
    }
}

/// A text takes no more room than there is: it is no wider than the room,
/// and no higher, but for the one row that any text with a character has.
pub proof fn lemma_text_size_in_room(s: Seq<char>, size: Size<u32>)
    ensures
        text_size(s, size).width <= size.width,
        text_size(s, size).height <= size.height || text_size(s, size).height <= 1,
{
    lemma_cursor_bounds(s, size, s.len());
}

/// Every character that the layout places lies within the room's width, and
/// within its height or in the first row.
pub proof fn lemma_laid_bounds(s: Seq<char>, size: Size<u32>, n: nat, i: int)
    requires
        0 <= i < laid_out(s, size, n).len(),
    ensures
        0 <= laid_out(s, size, n)[i].x < size.width,
        0 <= laid_out(s, size, n)[i].y,
        laid_out(s, size, n)[i].y == 0 || laid_out(s, size, n)[i].y < size.height,
    decreases n,
{
    if n > 0 {
        lemma_cursor_bounds(s, size, (n - 1) as nat);
        let before = laid_out(s, size, (n - 1) as nat);
        let at = cursor_after(s, size, (n - 1) as nat);
        if places(at, s[n - 1], size) {
            if i < before.len() {
                lemma_laid_bounds(s, size, (n - 1) as nat, i);
            }
        } else {
            lemma_laid_bounds(s, size, (n - 1) as nat, i);
        }
    }
}

/// A character that was laid out.
pub struct LaidChar {
    pub x: u32,
    pub y: u32,
    pub c: char,
}

impl View for LaidChar {
    type V = Laid;

    open spec fn view(&self) -> Laid {
        Laid { x: self.x as int, y: self.y as int, c: self.c }
    }
}

/// The laid out characters of a list as mathematical values.
pub open spec fn laid(cells: Seq<LaidChar>) -> Seq<Laid> {
    cells.map_values(|l: LaidChar| l@)
}

/// Adding a laid out character adds its mathematical value.
proof fn lemma_laid_push(cells: Seq<LaidChar>, cell: LaidChar)
    ensures
        laid(cells.push(cell)) == laid(cells).push(cell@),
{
    assert(laid(cells.push(cell)) =~= laid(cells).push(cell@));
}

/// Lays out a text in a room of the given size: gives the room that the
/// text takes, and the characters that have a cell, each with its cell.
pub fn measure_text(s: &str, size: Size<u32>) -> (r: (Size<u32>, Vec<LaidChar>))
    ensures
        r.0 == text_size(s@, size),
        laid(r.1@) == text_cells(s@, size),
{
    let chars = chars_of(s);
    let mut cells: Vec<LaidChar> = Vec::new();
    if chars.len() == 0 {
        assert(laid(cells@) =~= text_cells(s@, size));
        return (Size { width: 0, height: 0 }, cells);
    }
    let mut dx: u32 = 0;
    let mut dy: u32 = 0;
    let mut w: u32 = 0;
    let mut i: usize = 0;
    let mut stopped: bool = false;
    assert(laid(cells@) =~= laid_out(s@, size, 0));
    while i < chars.len() && !stopped
        invariant
            i <= chars@.len(),
            chars@ == s@,
            cursor_after(s@, size, i as nat) == (Cursor {
                dx: dx as int,
                dy: dy as int,
                w: w as int,
                stopped,
            }),
            laid(cells@) == laid_out(s@, size, i as nat),
        decreases chars@.len() - i,
    {
        let c = chars[i];
        proof {
            lemma_cursor_bounds(s@, size, i as nat);
        }
        if c == '\n' {
            if dy + 1 >= size.height {
                stopped = true;
            } else {
                dy += 1;
                dx = 0;
            }
        } else if dx >= size.width {
            stopped = true;
        } else {
            let ghost before = cells@;
            let cell = LaidChar { x: dx, y: dy, c };
            cells.push(cell);
            proof {
                lemma_laid_push(before, cell);
            }
            dx += 1;
            if dx > w {
                w = dx;
            }
        }
        i += 1;
    }
    proof {
        if stopped {
            lemma_stopped(s@, size, i as nat, s@.len());
        }
        lemma_cursor_bounds(s@, size, s@.len());
    }
    (Size { width: w, height: dy + 1 }, cells)
}

/// Once the layout has stopped it stays where it is and places nothing.
pub proof fn lemma_stopped(s: Seq<char>, size: Size<u32>, from: nat, to: nat)
    requires
        from <= to,
        cursor_after(s, size, from).stopped,
    ensures
        cursor_after(s, size, to) == cursor_after(s, size, from),
        laid_out(s, size, to) == laid_out(s, size, from),
    decreases to - from,
{
    if from < to {
        lemma_stopped(s, size, from, (to - 1) as nat);
    }
}

} // verus!
