//! What holds of every frame that the compositor renders.

use vstd::prelude::*;

use super::diff::{
    attribute_commands, bg_commands, cell_commands, cell_state, differs, fg_commands,
    frame_commands, needs_move, opening_commands, position_of, scan_commands, scan_state,
    start_state, State,
};
use super::surface_renderer::{lemma_silent_frame, SurfaceRenderer};
use crate::color::Color;
use crate::math::{Position, Size};
use crate::pixel::{dirty_view, empty_view, PixelView};
use crate::rasterizer::{
    backgrounds, count_moves, count_set_bg, count_set_fg, count_where, count_writes, foregrounds,
    lemma_count_concat, lemma_count_one, moves, writes, Command,
};
use crate::surface::ResizeMode;

verus! {

/// Whether cell `i` differs from what the terminal shows.
pub open spec fn changed(front: Seq<PixelView>, back: Seq<PixelView>, i: int) -> bool {
    differs(front[i], back[i])
}

/// How many of the first `n` cells differ from what the terminal shows.
pub open spec fn changed_count(front: Seq<PixelView>, back: Seq<PixelView>, n: nat) -> nat
    decreases n,
{
    if n == 0 {
        0
    } else {
        changed_count(front, back, (n - 1) as nat) + (if differs(front[n - 1], back[n - 1]) {
            1nat
        } else {
            0
        })
    }
}

/// Whether cell `i` differs from what the terminal shows and does not
/// follow, in its row, a cell that differs too: whether a run of changed
/// cells starts at `i`.
pub open spec fn starts_run(front: Seq<PixelView>, back: Seq<PixelView>, width: int, i: int) -> bool {
    differs(front[i], back[i]) && (i % width == 0 || !differs(front[i - 1], back[i - 1]))
}

/// How many runs of changed cells start among the first `n` cells.
pub open spec fn run_starts(front: Seq<PixelView>, back: Seq<PixelView>, width: int, n: nat) -> nat
    decreases n,
{
    if n == 0 {
        0
    } else {
        run_starts(front, back, width, (n - 1) as nat) + (if starts_run(
            front,
            back,
            width,
            n - 1,
        ) {
            1nat
        } else {
            0
        })
    }
}

/// The last of the first `n` cells that differs from what the terminal
/// shows, or -1 where none does.
pub open spec fn last_changed(front: Seq<PixelView>, back: Seq<PixelView>, n: nat) -> int
    decreases n,
{
    if n == 0 {
        -1
    } else if differs(front[n - 1], back[n - 1]) {
        n - 1
    } else {
        last_changed(front, back, (n - 1) as nat)
    }
}

/// Counting in the commands that write one cell: there is one write, a move
/// where the frame opens or the cursor is elsewhere, and a colour is set
/// where it differs from the one in force.
pub proof fn lemma_cell_counts(
    s: State,
    pos: Position<i32>,
    cell: PixelView,
    default_fg: Color,
    default_bg: Color,
)
    ensures
        count_writes(cell_commands(s, pos, cell, default_fg, default_bg)) == 1,
        count_moves(cell_commands(s, pos, cell, default_fg, default_bg)) == (if !s.seen
            || needs_move(s.pos, pos) {
            1nat
        } else {
            0
        }),
        count_set_fg(cell_commands(s, pos, cell, default_fg, default_bg)) == (if s.fg
            != cell.foreground.spec_get_or_default(default_fg) {
            1nat
        } else {
            0
        }),
        count_set_bg(cell_commands(s, pos, cell, default_fg, default_bg)) == (if s.bg
            != cell.background.spec_get_or_default(default_bg) {
            1nat
        } else {
            0
        }),
{
    let fg = cell.foreground.spec_get_or_default(default_fg);
    let bg = cell.background.spec_get_or_default(default_bg);
    let a = opening_commands(s, pos, default_fg, default_bg);
    let b = attribute_commands(s.attr, cell.attributes);
    let c = fg_commands(s.fg, fg);
    let d = bg_commands(s.bg, bg);
    let e = seq![Command::Write(cell.data.text())];
    lemma_part_counts(a, b, c, d, e, writes());
    lemma_part_counts(a, b, c, d, e, moves());
    lemma_part_counts(a, b, c, d, e, foregrounds());
    lemma_part_counts(a, b, c, d, e, backgrounds());
    lemma_opening_counts(s, pos, default_fg, default_bg);
    lemma_short_counts(b, writes());
    lemma_short_counts(b, moves());
    lemma_short_counts(b, foregrounds());
    lemma_short_counts(b, backgrounds());
    lemma_short_counts(c, writes());
    lemma_short_counts(c, moves());
    lemma_short_counts(c, foregrounds());
    lemma_short_counts(c, backgrounds());
    lemma_short_counts(d, writes());
    lemma_short_counts(d, moves());
    lemma_short_counts(d, foregrounds());
    lemma_short_counts(d, backgrounds());
    lemma_short_counts(e, writes());
    lemma_short_counts(e, moves());
    lemma_short_counts(e, foregrounds());
    lemma_short_counts(e, backgrounds());
}

/// Within the commands that write one cell, the only write is the last
/// command, which writes the cell's text, and every move of the cursor goes
/// to that cell. A frame is made of such writings, one after the other: so
/// each move in it goes to the cell that is written next.
pub proof fn lemma_cell_moves_to_its_cell(
    s: State,
    pos: Position<i32>,
    cell: PixelView,
    default_fg: Color,
    default_bg: Color,
)
    ensures
        cell_commands(s, pos, cell, default_fg, default_bg).len() > 0,
        cell_commands(s, pos, cell, default_fg, default_bg).last() == Command::Write(
            cell.data.text(),
        ),
        forall|i: int|
            0 <= i < cell_commands(s, pos, cell, default_fg, default_bg).len() - 1 ==> !(
            #[trigger] cell_commands(s, pos, cell, default_fg, default_bg)[i] is Write),
        forall|i: int|
            0 <= i < cell_commands(s, pos, cell, default_fg, default_bg).len() && (
            #[trigger] cell_commands(s, pos, cell, default_fg, default_bg)[i] is MoveTo)
                ==> cell_commands(s, pos, cell, default_fg, default_bg)[i] == Command::MoveTo(pos),
{
    let fg = cell.foreground.spec_get_or_default(default_fg);
    let bg = cell.background.spec_get_or_default(default_bg);
    let a = opening_commands(s, pos, default_fg, default_bg);
    let b = attribute_commands(s.attr, cell.attributes);
    let c = fg_commands(s.fg, fg);
    let d = bg_commands(s.bg, bg);
    let e = seq![Command::Write(cell.data.text())];
    let all = cell_commands(s, pos, cell, default_fg, default_bg);
    assert(all == a + b + c + d + e);
    assert forall|i: int| 0 <= i < all.len() - 1 implies !(#[trigger] all[i] is Write) && (all[i]
        is MoveTo ==> all[i] == Command::MoveTo(pos)) by {
        if i < a.len() {
            assert(all[i] == a[i]);
        } else if i < a.len() + b.len() {
            assert(all[i] == b[i - a.len()]);
        } else if i < a.len() + b.len() + c.len() {
            assert(all[i] == c[i - a.len() - b.len()]);
        } else {
            assert(all[i] == d[i - a.len() - b.len() - c.len()]);
        }
    }
    assert(all.last() == e[0]);
}

/// Counting in five sequences one after the other adds up.
proof fn lemma_part_counts(
    a: Seq<Command>,
    b: Seq<Command>,
    c: Seq<Command>,
    d: Seq<Command>,
    e: Seq<Command>,
    pick: spec_fn(Command) -> bool,
)
    ensures
        count_where(a + b + c + d + e, pick) == count_where(a, pick) + count_where(b, pick)
            + count_where(c, pick) + count_where(d, pick) + count_where(e, pick),
{
    lemma_count_concat(a, b, pick);
    lemma_count_concat(a + b, c, pick);
    lemma_count_concat(a + b + c, d, pick);
    lemma_count_concat(a + b + c + d, e, pick);
}

/// Counting in a sequence of no command or of one.
proof fn lemma_short_counts(commands: Seq<Command>, pick: spec_fn(Command) -> bool)
    requires
        commands.len() <= 1,
    ensures
        count_where(commands, pick) == (if commands.len() == 1 && pick(commands[0]) {
            1nat
        } else {
            0
        }),
{
    if commands.len() == 1 {
        assert(commands =~= seq![commands[0]]);
        lemma_count_one(commands[0], pick);
    }
}

/// Counting in the commands that start the writing of a cell.
proof fn lemma_opening_counts(s: State, pos: Position<i32>, default_fg: Color, default_bg: Color)
    ensures
        count_writes(opening_commands(s, pos, default_fg, default_bg)) == 0,
        count_set_fg(opening_commands(s, pos, default_fg, default_bg)) == 0,
        count_set_bg(opening_commands(s, pos, default_fg, default_bg)) == 0,
        count_moves(opening_commands(s, pos, default_fg, default_bg)) == (if !s.seen || needs_move(
            s.pos,
            pos,
        ) {
            1nat
        } else {
            0
        }),
{
    let opening = opening_commands(s, pos, default_fg, default_bg);
    if !s.seen {
        let a = seq![Command::Begin];
        let b = seq![Command::MoveTo(pos)];
        let c = seq![Command::DefaultFg(default_fg)];
        let d = seq![Command::DefaultBg(default_bg)];
        let e = Seq::<Command>::empty();
        assert(opening =~= a + b + c + d + e);
        lemma_part_counts(a, b, c, d, e, writes());
        lemma_part_counts(a, b, c, d, e, moves());
        lemma_part_counts(a, b, c, d, e, foregrounds());
        lemma_part_counts(a, b, c, d, e, backgrounds());
        lemma_short_counts(a, writes());
        lemma_short_counts(a, moves());
        lemma_short_counts(a, foregrounds());
        lemma_short_counts(a, backgrounds());
        lemma_short_counts(b, writes());
        lemma_short_counts(b, moves());
        lemma_short_counts(b, foregrounds());
        lemma_short_counts(b, backgrounds());
        lemma_short_counts(c, writes());
        lemma_short_counts(c, moves());
        lemma_short_counts(c, foregrounds());
        lemma_short_counts(c, backgrounds());
        lemma_short_counts(d, writes());
        lemma_short_counts(d, moves());
        lemma_short_counts(d, foregrounds());
        lemma_short_counts(d, backgrounds());
        lemma_short_counts(e, writes());
        lemma_short_counts(e, moves());
        lemma_short_counts(e, foregrounds());
        lemma_short_counts(e, backgrounds());
    } else {
        lemma_short_counts(opening, writes());
        lemma_short_counts(opening, moves());
        lemma_short_counts(opening, foregrounds());
        lemma_short_counts(opening, backgrounds());
    }
}

/// The end of a frame is neither a write nor a move nor a colour.
proof fn lemma_frame_counts(
    front: Seq<PixelView>,
    back: Seq<PixelView>,
    width: int,
    default_fg: Color,
    default_bg: Color,
)
    ensures
        count_writes(frame_commands(front, back, width, default_fg, default_bg)) == count_writes(
            scan_commands(front, back, width, default_fg, default_bg, front.len()),
        ),
        count_moves(frame_commands(front, back, width, default_fg, default_bg)) == count_moves(
            scan_commands(front, back, width, default_fg, default_bg, front.len()),
        ),
        count_set_fg(frame_commands(front, back, width, default_fg, default_bg)) == count_set_fg(
            scan_commands(front, back, width, default_fg, default_bg, front.len()),
        ),
        count_set_bg(frame_commands(front, back, width, default_fg, default_bg)) == count_set_bg(
            scan_commands(front, back, width, default_fg, default_bg, front.len()),
        ),
{
    let body = scan_commands(front, back, width, default_fg, default_bg, front.len());
    if scan_state(front, back, width, default_fg, default_bg, front.len()).seen {
        let end = seq![Command::End];
        assert(body.push(Command::End) =~= body + end);
        lemma_count_concat(body, end, writes());
        lemma_count_concat(body, end, moves());
        lemma_count_concat(body, end, foregrounds());
        lemma_count_concat(body, end, backgrounds());
        lemma_short_counts(end, writes());
        lemma_short_counts(end, moves());
        lemma_short_counts(end, foregrounds());
        lemma_short_counts(end, backgrounds());
    }
}

/// The scan writes each changed cell once.
pub proof fn lemma_scan_writes(
    front: Seq<PixelView>,
    back: Seq<PixelView>,
    width: int,
    default_fg: Color,
    default_bg: Color,
    n: nat,
)
    ensures
        count_writes(scan_commands(front, back, width, default_fg, default_bg, n)) == changed_count(
            front,
            back,
            n,
        ),
    decreases n,
{
    if n > 0 {
        let m = (n - 1) as nat;
        lemma_scan_writes(front, back, width, default_fg, default_bg, m);
        if differs(front[n - 1], back[n - 1]) {
            let before = scan_commands(front, back, width, default_fg, default_bg, m);
            let s = scan_state(front, back, width, default_fg, default_bg, m);
            let cell = cell_commands(s, position_of(width, n - 1), front[n - 1], default_fg, default_bg);
            lemma_count_concat(before, cell, writes());
            lemma_cell_counts(s, position_of(width, n - 1), front[n - 1], default_fg, default_bg);
        }
    }
}

/// A frame writes exactly the cells that differ from what the terminal
/// shows, each of them once.
pub proof fn lemma_frame_writes_changed_cells(
    front: Seq<PixelView>,
    back: Seq<PixelView>,
    width: int,
    default_fg: Color,
    default_bg: Color,
)
    ensures
        count_writes(frame_commands(front, back, width, default_fg, default_bg)) == changed_count(
            front,
            back,
            front.len(),
        ),
{
    lemma_frame_counts(front, back, width, default_fg, default_bg);
    lemma_scan_writes(front, back, width, default_fg, default_bg, front.len());
}

/// A frame drawn that equals, cell by cell, what the terminal shows emits no
/// command at all, where every cell of the terminal was painted before.
pub proof fn lemma_unchanged_frame_is_silent(
    front: Seq<PixelView>,
    back: Seq<PixelView>,
    width: int,
    default_fg: Color,
    default_bg: Color,
)
    requires
        front.len() == back.len(),
        forall|i: int| 0 <= i < front.len() ==> front[i] == back[i] && !back[i].unpainted,
    ensures
        frame_commands(front, back, width, default_fg, default_bg) == Seq::<Command>::empty(),
{
    lemma_silent_frame(front, back, width, default_fg, default_bg);
    assert(frame_commands(front, back, width, default_fg, default_bg) =~= Seq::<Command>::empty());
}

/// Rendering twice without a write in between: where the first frame drew
/// nothing but blank cells, the second render emits no command. After the
/// first render the terminal shows the first frame and the front grid is
/// blank again, so that the second frame is the blank grid drawn over the
/// first frame.
pub proof fn lemma_second_render_is_silent(
    first: Seq<PixelView>,
    width: int,
    default_fg: Color,
    default_bg: Color,
)
    requires
        forall|i: int| 0 <= i < first.len() ==> first[i] == empty_view(),
    ensures
        frame_commands(
            Seq::new(first.len(), |i: int| empty_view()),
            first,
            width,
            default_fg,
            default_bg,
        ) == Seq::<Command>::empty(),
{
    lemma_unchanged_frame_is_silent(
        Seq::new(first.len(), |i: int| empty_view()),
        first,
        width,
        default_fg,
        default_bg,
    );
}

/// Where every cell has to be written, all cells count as changed.
proof fn lemma_all_changed(front: Seq<PixelView>, back: Seq<PixelView>, n: nat)
    requires
        forall|i: int| 0 <= i < n ==> differs(#[trigger] front[i], back[i]),
    ensures
        changed_count(front, back, n) == n,
    decreases n,
{
    if n > 0 {
        lemma_all_changed(front, back, (n - 1) as nat);
    }
}

/// Over a grid of which no cell was ever painted, a frame writes every
/// cell, whatever was drawn: as many writes as the grid has cells.
pub proof fn lemma_unpainted_grid_is_painted_in_full(
    front: Seq<PixelView>,
    back: Seq<PixelView>,
    width: int,
    default_fg: Color,
    default_bg: Color,
)
    requires
        front.len() == back.len(),
        forall|i: int| 0 <= i < back.len() ==> (#[trigger] back[i]).unpainted,
    ensures
        count_writes(frame_commands(front, back, width, default_fg, default_bg)) == front.len(),
{
    lemma_frame_writes_changed_cells(front, back, width, default_fg, default_bg);
    assert forall|i: int| 0 <= i < front.len() implies differs(#[trigger] front[i], back[i]) by {
        assert(back[i].unpainted);
    }
    lemma_all_changed(front, back, front.len());
}

/// The first frame of a compositor paints every cell, whatever was drawn:
/// with the back grid as a new compositor seeds it, and as a change of size
/// that discards leaves it, the frame writes as many cells as the grid has.
pub proof fn lemma_first_frame_paints_every_cell(
    front: Seq<PixelView>,
    width: int,
    default_fg: Color,
    default_bg: Color,
)
    ensures
        count_writes(
            frame_commands(
                front,
                Seq::new(front.len(), |i: int| dirty_view()),
                width,
                default_fg,
                default_bg,
            ),
        ) == front.len(),
{
    let back = Seq::new(front.len(), |i: int| dirty_view());
    lemma_unpainted_grid_is_painted_in_full(front, back, width, default_fg, default_bg);
}

/// A compositor whose back grid holds no painted cell, as a new one and one
/// whose size was changed discarding, writes every cell in its next frame,
/// whatever was drawn.
pub proof fn lemma_unpainted_compositor_paints_in_full(compositor: SurfaceRenderer)
    requires
        compositor.wf(),
        forall|i: int|
            0 <= i < compositor.back_cells().len() ==> (
            #[trigger] compositor.back_cells()[i]).unpainted,
    ensures
        count_writes(compositor.spec_frame()) == compositor.extent().width
            * compositor.extent().height,
{
    compositor.lemma_wf();
    lemma_unpainted_grid_is_painted_in_full(
        compositor.front_cells(),
        compositor.back_cells(),
        compositor.extent().width as int,
        compositor.spec_default_fg(),
        compositor.spec_default_bg(),
    );
}

/// After a change of size that discards, the next frame paints every cell,
/// whatever the terminal showed before and whatever is drawn.
pub proof fn lemma_discard_forces_full_paint(
    front: Seq<PixelView>,
    shown: Seq<PixelView>,
    from: Size<u32>,
    to: Size<u32>,
    default_fg: Color,
    default_bg: Color,
)
    requires
        front.len() == to.width * to.height,
    ensures
        count_writes(
            frame_commands(
                front,
                SurfaceRenderer::resized_back(shown, from, to, ResizeMode::Discard),
                to.width as int,
                default_fg,
                default_bg,
            ),
        ) == front.len(),
{
    let back = SurfaceRenderer::resized_back(shown, from, to, ResizeMode::Discard);
    lemma_unpainted_grid_is_painted_in_full(front, back, to.width as int, default_fg, default_bg);
}

/// What the scan remembers after the first `n` cells is what the last
/// changed cell among them left: its position, attributes and colours. With
/// no changed cell the scan is where it started.
pub proof fn lemma_scan_state(
    front: Seq<PixelView>,
    back: Seq<PixelView>,
    width: int,
    default_fg: Color,
    default_bg: Color,
    n: nat,
)
    ensures
        -1 <= last_changed(front, back, n) < n,
        last_changed(front, back, n) >= 0 ==> differs(
            front[last_changed(front, back, n)],
            back[last_changed(front, back, n)],
        ),
        n > 0 ==> (last_changed(front, back, n) == n - 1 <==> differs(front[n - 1], back[n - 1])),
        changed_count(front, back, n) > 0 <==> last_changed(front, back, n) >= 0,
        last_changed(front, back, n) < 0 ==> scan_state(
            front,
            back,
            width,
            default_fg,
            default_bg,
            n,
        ) == start_state(default_fg, default_bg),
        last_changed(front, back, n) >= 0 ==> scan_state(
            front,
            back,
            width,
            default_fg,
            default_bg,
            n,
        ) == cell_state(
            start_state(default_fg, default_bg),
            position_of(width, last_changed(front, back, n)),
            front[last_changed(front, back, n)],
            default_fg,
            default_bg,
        ),
    decreases n,
{
    if n > 0 {
        lemma_scan_state(front, back, width, default_fg, default_bg, (n - 1) as nat);
    }
}

/// In a grid, a cell is the right neighbour of an earlier one exactly if it
/// comes next in the buffer and does not start a row.
pub proof fn lemma_neighbours(width: int, height: int, j: int, n: int)
    requires
        0 < width <= i32::MAX,
        0 <= height <= i32::MAX,
        0 <= j < n < width * height,
    ensures
        needs_move(Some(position_of(width, j)), position_of(width, n)) == !(j == n - 1 && n % width
            != 0),
{
    crate::surface::lemma_index_to_cell(width, height, j);
    crate::surface::lemma_index_to_cell(width, height, n);
    let qj = j / width;
    let rj = j % width;
    let qn = n / width;
    let rn = n % width;
    if j == n - 1 && rn != 0 {
        vstd::arithmetic::div_mod::lemma_fundamental_div_mod_converse(j, width, qn, rn - 1);
    }
    if qj == qn && rj == rn - 1 {
        assert(j == n - 1);
    }
}

/// The scan moves the cursor once for every run of changed cells.
pub proof fn lemma_scan_moves(
    front: Seq<PixelView>,
    back: Seq<PixelView>,
    width: int,
    height: int,
    default_fg: Color,
    default_bg: Color,
    n: nat,
)
    requires
        0 < width <= i32::MAX,
        0 <= height <= i32::MAX,
        front.len() == width * height,
        back.len() == width * height,
        n <= front.len(),
    ensures
        count_moves(scan_commands(front, back, width, default_fg, default_bg, n)) == run_starts(
            front,
            back,
            width,
            n,
        ),
    decreases n,
{
    if n > 0 {
        let m = (n - 1) as nat;
        let i = n - 1;
        lemma_scan_moves(front, back, width, height, default_fg, default_bg, m);
        lemma_scan_state(front, back, width, default_fg, default_bg, m);
        if differs(front[i], back[i]) {
            let before = scan_commands(front, back, width, default_fg, default_bg, m);
            let s = scan_state(front, back, width, default_fg, default_bg, m);
            let cell = cell_commands(s, position_of(width, i), front[i], default_fg, default_bg);
            lemma_count_concat(before, cell, moves());
            lemma_cell_counts(s, position_of(width, i), front[i], default_fg, default_bg);
            let j = last_changed(front, back, m);
            if j >= 0 {
                lemma_neighbours(width, height, j, i);
            } else if i == 0 {
                vstd::arithmetic::div_mod::lemma_small_mod(0, width as nat);
            }
        }
    }
}

/// A frame moves the cursor once for every run of changed cells: once for
/// each changed cell that starts a row or follows a cell that did not
/// change.
pub proof fn lemma_frame_moves_once_per_run(
    front: Seq<PixelView>,
    back: Seq<PixelView>,
    width: int,
    height: int,
    default_fg: Color,
    default_bg: Color,
)
    requires
        0 < width <= i32::MAX,
        0 <= height <= i32::MAX,
        front.len() == width * height,
        back.len() == width * height,
    ensures
        count_moves(frame_commands(front, back, width, default_fg, default_bg)) == run_starts(
            front,
            back,
            width,
            front.len(),
        ),
{
    lemma_frame_counts(front, back, width, default_fg, default_bg);
    lemma_scan_moves(front, back, width, height, default_fg, default_bg, front.len());
}

/// The runs and the changed cells among the first `n` cells of a grid in
/// which exactly the cells of one row changed.
proof fn lemma_row_counts(
    front: Seq<PixelView>,
    back: Seq<PixelView>,
    width: int,
    height: int,
    row: int,
    n: nat,
)
    requires
        0 < width,
        0 <= row < height,
        front.len() == width * height,
        back.len() == width * height,
        n <= front.len(),
        forall|i: int| 0 <= i < front.len() ==> (differs(front[i], back[i]) <==> i / width == row),
    ensures
        run_starts(front, back, width, n) == (if n > row * width {
            1nat
        } else {
            0
        }),
        changed_count(front, back, n) == (if n <= row * width {
            0
        } else if n >= row * width + width {
            width
        } else {
            n - row * width
        }),
    decreases n,
{
    if n > 0 {
        let i = n - 1;
        lemma_row_counts(front, back, width, height, row, (n - 1) as nat);
        crate::surface::lemma_index_to_cell(width, height, i);
        vstd::arithmetic::div_mod::lemma_fundamental_div_mod(i, width);
        assert(width * (i / width) == (i / width) * width) by (nonlinear_arith);
        if i / width == row {
            assert(row * width <= i < row * width + width);
            if i % width != 0 {
                crate::surface::lemma_index_to_cell(width, height, i - 1);
                vstd::arithmetic::div_mod::lemma_fundamental_div_mod_converse(
                    i - 1,
                    width,
                    row,
                    i % width - 1,
                );
            }
        } else if i / width < row {
            assert((i / width) * width + width <= row * width) by (nonlinear_arith)
                requires
                    i / width + 1 <= row,
                    0 < width,
            ;
        } else {
            assert((i / width) * width >= row * width + width) by (nonlinear_arith)
                requires
                    i / width >= row + 1,
                    0 < width,
            ;
        }
    }
}

/// Where exactly the cells of one row changed, the frame moves the cursor
/// once and writes as many cells as the row has.
pub proof fn lemma_full_row_moves_once(
    front: Seq<PixelView>,
    back: Seq<PixelView>,
    width: int,
    height: int,
    row: int,
    default_fg: Color,
    default_bg: Color,
)
    requires
        0 < width <= i32::MAX,
        0 <= row < height <= i32::MAX,
        front.len() == width * height,
        back.len() == width * height,
        forall|i: int| 0 <= i < front.len() ==> (differs(front[i], back[i]) <==> i / width == row),
    ensures
        count_moves(frame_commands(front, back, width, default_fg, default_bg)) == 1,
        count_writes(frame_commands(front, back, width, default_fg, default_bg)) == width,
{
    lemma_frame_moves_once_per_run(front, back, width, height, default_fg, default_bg);
    lemma_frame_writes_changed_cells(front, back, width, default_fg, default_bg);
    lemma_row_counts(front, back, width, height, row, front.len());
    assert(row * width + width <= width * height) by (nonlinear_arith)
        requires
            row + 1 <= height,
            0 < width,
    ;
    assert(0 <= row * width) by (nonlinear_arith)
        requires
            0 <= row,
            0 < width,
    ;
}

/// Where no changed cell follows another in its row, every changed cell
/// starts a run.
proof fn lemma_separate_counts(front: Seq<PixelView>, back: Seq<PixelView>, width: int, n: nat)
    requires
        0 < width,
        n <= front.len(),
        forall|i: int|
            0 < i < front.len() && #[trigger] changed(front, back, i) && i % width != 0 ==> !changed(
                front,
                back,
                i - 1,
            ),
    ensures
        run_starts(front, back, width, n) == changed_count(front, back, n),
    decreases n,
{
    if n > 0 {
        lemma_separate_counts(front, back, width, (n - 1) as nat);
        let i = n - 1;
        if i == 0 {
            vstd::arithmetic::div_mod::lemma_small_mod(0, width as nat);
        }
        if changed(front, back, i) && i % width != 0 {
            assert(!changed(front, back, i - 1));
        }
    }
}

/// Where no changed cell follows another in its row, as when every other
/// cell of a row is written, the frame moves the cursor before each write.
pub proof fn lemma_separate_cells_move_each(
    front: Seq<PixelView>,
    back: Seq<PixelView>,
    width: int,
    height: int,
    default_fg: Color,
    default_bg: Color,
)
    requires
        0 < width <= i32::MAX,
        0 <= height <= i32::MAX,
        front.len() == width * height,
        back.len() == width * height,
        forall|i: int|
            0 < i < front.len() && #[trigger] changed(front, back, i) && i % width != 0 ==> !changed(
                front,
                back,
                i - 1,
            ),
    ensures
        count_moves(frame_commands(front, back, width, default_fg, default_bg)) == count_writes(
            frame_commands(front, back, width, default_fg, default_bg),
        ),
{
    lemma_frame_moves_once_per_run(front, back, width, height, default_fg, default_bg);
    lemma_frame_writes_changed_cells(front, back, width, default_fg, default_bg);
    lemma_separate_counts(front, back, width, front.len());
}

/// Counting the colour commands of a scan in which every changed cell has
/// the foreground `fg` and the background `bg`, once resolved.
proof fn lemma_scan_colors(
    front: Seq<PixelView>,
    back: Seq<PixelView>,
    width: int,
    default_fg: Color,
    default_bg: Color,
    fg: Color,
    bg: Color,
    n: nat,
)
    requires
        forall|i: int|
            0 <= i < n && differs(front[i], back[i]) ==> front[i].foreground.spec_get_or_default(
                default_fg,
            ) == fg && front[i].background.spec_get_or_default(default_bg) == bg,
    ensures
        count_set_fg(scan_commands(front, back, width, default_fg, default_bg, n)) == (
        if changed_count(front, back, n) > 0 && fg != default_fg {
            1nat
        } else {
            0
        }),
        count_set_bg(scan_commands(front, back, width, default_fg, default_bg, n)) == (
        if changed_count(front, back, n) > 0 && bg != default_bg {
            1nat
        } else {
            0
        }),
    decreases n,
{
    if n > 0 {
        let m = (n - 1) as nat;
        let i = n - 1;
        lemma_scan_colors(front, back, width, default_fg, default_bg, fg, bg, m);
        lemma_scan_state(front, back, width, default_fg, default_bg, m);
        if differs(front[i], back[i]) {
            let before = scan_commands(front, back, width, default_fg, default_bg, m);
            let s = scan_state(front, back, width, default_fg, default_bg, m);
            let cell = cell_commands(s, position_of(width, i), front[i], default_fg, default_bg);
            lemma_count_concat(before, cell, foregrounds());
            lemma_count_concat(before, cell, backgrounds());
            lemma_cell_counts(s, position_of(width, i), front[i], default_fg, default_bg);
        }
    }
}

/// Where every changed cell of a frame has the same foreground and the
/// same background, once resolved against the defaults, each of the two is
/// set at most once in the frame: once where it differs from the default
/// that is in force when the frame opens, and not at all where it is that
/// default or where no cell changed.
pub proof fn lemma_uniform_colors_are_set_once(
    front: Seq<PixelView>,
    back: Seq<PixelView>,
    width: int,
    default_fg: Color,
    default_bg: Color,
    fg: Color,
    bg: Color,
)
    requires
        forall|i: int|
            0 <= i < front.len() && differs(front[i], back[i]) ==> front[i].foreground.spec_get_or_default(
                default_fg,
            ) == fg && front[i].background.spec_get_or_default(default_bg) == bg,
    ensures
        count_set_fg(frame_commands(front, back, width, default_fg, default_bg)) == (
        if changed_count(front, back, front.len()) > 0 && fg != default_fg {
            1nat
        } else {
            0
        }),
        count_set_bg(frame_commands(front, back, width, default_fg, default_bg)) == (
        if changed_count(front, back, front.len()) > 0 && bg != default_bg {
            1nat
        } else {
            0
        }),
{
    lemma_frame_counts(front, back, width, default_fg, default_bg);
    lemma_scan_colors(front, back, width, default_fg, default_bg, fg, bg, front.len());
}

/// Whether a command names the transparent colour.
pub open spec fn names_transparent(command: Command) -> bool {
    match command {
        Command::DefaultFg(color) => color == Color::Transparent,
        Command::DefaultBg(color) => color == Color::Transparent,
        Command::SetFg(color) => color == Color::Transparent,
        Command::SetBg(color) => color == Color::Transparent,
        Command::ClearScreen(color, _) => color == Color::Transparent,
        _ => false,
    }
}

/// Whether none of the commands names the transparent colour.
pub open spec fn all_opaque(commands: Seq<Command>) -> bool {
    forall|i: int| 0 <= i < commands.len() ==> !names_transparent(#[trigger] commands[i])
}

/// Commands that name no transparent colour, one after the other, name
/// none.
proof fn lemma_opaque_concat(first: Seq<Command>, second: Seq<Command>)
    requires
        all_opaque(first),
        all_opaque(second),
    ensures
        all_opaque(first + second),
{
    assert forall|i: int| 0 <= i < (first + second).len() implies !names_transparent(
        #[trigger] (first + second)[i],
    ) by {
        if i < first.len() {
            assert((first + second)[i] == first[i]);
        } else {
            assert((first + second)[i] == second[i - first.len()]);
        }
    }
}

/// The commands that write one cell name no transparent colour, where the
/// defaults are none.
proof fn lemma_cell_opaque(
    s: State,
    pos: Position<i32>,
    cell: PixelView,
    default_fg: Color,
    default_bg: Color,
)
    requires
        default_fg != Color::Transparent,
        default_bg != Color::Transparent,
    ensures
        all_opaque(cell_commands(s, pos, cell, default_fg, default_bg)),
{
    let fg = cell.foreground.spec_get_or_default(default_fg);
    let bg = cell.background.spec_get_or_default(default_bg);
    let a = opening_commands(s, pos, default_fg, default_bg);
    let b = attribute_commands(s.attr, cell.attributes);
    let c = fg_commands(s.fg, fg);
    let d = bg_commands(s.bg, bg);
    let e = seq![Command::Write(cell.data.text())];
    assert(all_opaque(a));
    assert(all_opaque(b));
    assert(all_opaque(c));
    assert(all_opaque(d));
    assert(all_opaque(e));
    lemma_opaque_concat(a, b);
    lemma_opaque_concat(a + b, c);
    lemma_opaque_concat(a + b + c, d);
    lemma_opaque_concat(a + b + c + d, e);
}

/// The scan names no transparent colour, where the defaults are none.
proof fn lemma_scan_opaque(
    front: Seq<PixelView>,
    back: Seq<PixelView>,
    width: int,
    default_fg: Color,
    default_bg: Color,
    n: nat,
)
    requires
        default_fg != Color::Transparent,
        default_bg != Color::Transparent,
    ensures
        all_opaque(scan_commands(front, back, width, default_fg, default_bg, n)),
    decreases n,
{
    if n > 0 {
        let m = (n - 1) as nat;
        lemma_scan_opaque(front, back, width, default_fg, default_bg, m);
        if differs(front[n - 1], back[n - 1]) {
            let s = scan_state(front, back, width, default_fg, default_bg, m);
            lemma_cell_opaque(s, position_of(width, n - 1), front[n - 1], default_fg, default_bg);
            lemma_opaque_concat(
                scan_commands(front, back, width, default_fg, default_bg, m),
                cell_commands(s, position_of(width, n - 1), front[n - 1], default_fg, default_bg),
            );
        }
    }
}

/// The transparent colour never reaches the sink: where the compositor's
/// defaults are not transparent, as its invariant says, no command of a
/// frame names the transparent colour, whatever the cells hold.
pub proof fn lemma_frame_names_no_transparent_colour(
    front: Seq<PixelView>,
    back: Seq<PixelView>,
    width: int,
    default_fg: Color,
    default_bg: Color,
)
    requires
        default_fg != Color::Transparent,
        default_bg != Color::Transparent,
    ensures
        all_opaque(frame_commands(front, back, width, default_fg, default_bg)),
{
    let body = scan_commands(front, back, width, default_fg, default_bg, front.len());
    lemma_scan_opaque(front, back, width, default_fg, default_bg, front.len());
    let end = seq![Command::End];
    assert(all_opaque(end));
    lemma_opaque_concat(body, end);
    assert(body.push(Command::End) =~= body + end);
}

} // verus!
