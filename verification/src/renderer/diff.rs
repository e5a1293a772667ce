//! The frame difference: which commands turn what the terminal shows into
//! the next frame.
//!
//! The cells are visited row by row. A cell that equals what the terminal
//! already shows is passed over; a cell of the terminal that was never
//! painted equals none. For every other cell the scan emits what is needed
//! to write it, and no more: the cursor is moved only where the cell does
//! not follow the one written before it, and attributes and colours are set
//! only where they differ from what was last set.

use vstd::prelude::*;

use crate::attributes::Attributes;
use crate::color::Color;
use crate::math::Position;
use crate::pixel::{Pixel, PixelView};
use crate::rasterizer::{
    cut_short, lemma_cut_short_first, lemma_cut_short_second, refused_command, stopped, Command,
    Rasterizer,
};

verus! {

/// What the scan remembers of the cells it has written.
pub struct State {
    /// The attributes that were last set.
    pub attr: Option<Attributes>,
    /// The cell that was last written.
    pub pos: Option<Position<i32>>,
    /// Whether any cell was written, and the frame therefore begun.
    pub seen: bool,
    /// The foreground colour that was last set.
    pub fg: Color,
    /// The background colour that was last set.
    pub bg: Color,
}

/// What is to be done about the attributes before a cell is written.
#[derive(Copy, Clone, Debug, PartialEq, Eq, Structural)]
pub enum AttributeChange {
    /// They are as the cell wants them.
    Keep,
    /// They are set to the cell's.
    Apply(Attributes),
    /// They are switched off, for a cell that has none.
    Reset,
}

/// The state in which a scan starts: nothing written, the compositor's
/// default colours in force.
pub open spec fn start_state(default_fg: Color, default_bg: Color) -> State {
    State { attr: None, pos: None, seen: false, fg: default_fg, bg: default_bg }
}

/// Whether the cursor has to be moved to reach `pos` after `previous` was
/// written: it has not where `pos` is the next cell to the right.
pub open spec fn needs_move(previous: Option<Position<i32>>, pos: Position<i32>) -> bool {
    match previous {
        Some(old) => old.y != pos.y || old.x != left_of(pos.x),
        None => true,
    }
}

/// The column to the left of `x`; the leftmost column has none and stands
/// for itself.
pub open spec fn left_of(x: i32) -> i32 {
    if x == i32::MIN {
        x
    } else {
        (x - 1) as i32
    }
}

/// What is to be done about the attributes when `last` were set and the cell
/// has `next`.
pub open spec fn attribute_change(last: Option<Attributes>, next: Option<Attributes>) -> AttributeChange {
    if last == next {
        AttributeChange::Keep
    } else {
        match next {
            Some(a) => AttributeChange::Apply(a),
            None => AttributeChange::Reset,
        }
    }
}

/// The commands that start the writing of a cell: the frame's opening for
/// the first cell, which moves the cursor there and announces the default
/// colours; for a later cell a move of the cursor, where one is needed.
pub open spec fn opening_commands(
    s: State,
    pos: Position<i32>,
    default_fg: Color,
    default_bg: Color,
) -> Seq<Command> {
    if !s.seen {
        seq![
            Command::Begin,
            Command::MoveTo(pos),
            Command::DefaultFg(default_fg),
            Command::DefaultBg(default_bg),
        ]
    } else if needs_move(s.pos, pos) {
        seq![Command::MoveTo(pos)]
    } else {
        Seq::empty()
    }
}

/// The commands that bring the attributes to those of a cell.
pub open spec fn attribute_commands(last: Option<Attributes>, next: Option<Attributes>) -> Seq<
    Command,
> {
    match attribute_change(last, next) {
        AttributeChange::Keep => Seq::empty(),
        AttributeChange::Apply(a) => seq![Command::SetAttribute(a)],
        AttributeChange::Reset => seq![Command::ResetAttribute],
    }
}

/// The commands that bring the foreground colour from `last` to `next`.
pub open spec fn fg_commands(last: Color, next: Color) -> Seq<Command> {
    if last == next {
        Seq::empty()
    } else {
        seq![Command::SetFg(next)]
    }
}

/// The commands that bring the background colour from `last` to `next`.
pub open spec fn bg_commands(last: Color, next: Color) -> Seq<Command> {
    if last == next {
        Seq::empty()
    } else {
        seq![Command::SetBg(next)]
    }
}

/// The commands that write one changed cell, from the state `s`.
pub open spec fn cell_commands(
    s: State,
    pos: Position<i32>,
    cell: PixelView,
    default_fg: Color,
    default_bg: Color,
) -> Seq<Command> {
    opening_commands(s, pos, default_fg, default_bg) + attribute_commands(s.attr, cell.attributes)
        + fg_commands(s.fg, cell.foreground.spec_get_or_default(default_fg)) + bg_commands(
        s.bg,
        cell.background.spec_get_or_default(default_bg),
    ) + seq![Command::Write(cell.data.text())]
}

/// The state after one changed cell was written.
pub open spec fn cell_state(
    s: State,
    pos: Position<i32>,
    cell: PixelView,
    default_fg: Color,
    default_bg: Color,
) -> State {
    State {
        attr: cell.attributes,
        pos: Some(pos),
        seen: true,
        fg: cell.foreground.spec_get_or_default(default_fg),
        bg: cell.background.spec_get_or_default(default_bg),
    }
}

/// Whether `cell` has to be written where the terminal shows `shown`: it has
/// where the two differ, and in any case where `shown` is the mark of a cell
/// that was never painted.
pub open spec fn differs(cell: PixelView, shown: PixelView) -> bool {
    shown.unpainted || cell != shown
}

/// The position of the `i`-th cell of a grid with rows of `width` cells.
pub open spec fn position_of(width: int, i: int) -> Position<i32> {
    Position { x: (i % width) as i32, y: (i / width) as i32 }
}

/// The state of the scan after the first `n` cells.
pub open spec fn scan_state(
    front: Seq<PixelView>,
    back: Seq<PixelView>,
    width: int,
    default_fg: Color,
    default_bg: Color,
    n: nat,
) -> State
    decreases n,
{
    if n == 0 {
        start_state(default_fg, default_bg)
    } else {
        let s = scan_state(front, back, width, default_fg, default_bg, (n - 1) as nat);
        if !differs(front[n - 1], back[n - 1]) {
            s
        } else {
            cell_state(s, position_of(width, n - 1), front[n - 1], default_fg, default_bg)
        }
    }
}

/// The commands that the scan emits for the first `n` cells.
pub open spec fn scan_commands(
    front: Seq<PixelView>,
    back: Seq<PixelView>,
    width: int,
    default_fg: Color,
    default_bg: Color,
    n: nat,
) -> Seq<Command>
    decreases n,
{
    if n == 0 {
        Seq::empty()
    } else {
        let before = scan_commands(front, back, width, default_fg, default_bg, (n - 1) as nat);
        if !differs(front[n - 1], back[n - 1]) {
            before
        } else {
            before + cell_commands(
                scan_state(front, back, width, default_fg, default_bg, (n - 1) as nat),
                position_of(width, n - 1),
                front[n - 1],
                default_fg,
                default_bg,
            )
        }
    }
}

/// The commands of a whole frame: those of the scan over every cell, and
/// the frame's end where the scan wrote any cell.
pub open spec fn frame_commands(
    front: Seq<PixelView>,
    back: Seq<PixelView>,
    width: int,
    default_fg: Color,
    default_bg: Color,
) -> Seq<Command> {
    let body = scan_commands(front, back, width, default_fg, default_bg, front.len());
    if scan_state(front, back, width, default_fg, default_bg, front.len()).seen {
        body.push(Command::End)
    } else {
        body
    }
}

/// What the scan has emitted after some cells is the start of what it has
/// emitted after more.
pub proof fn lemma_scan_grows(
    front: Seq<PixelView>,
    back: Seq<PixelView>,
    width: int,
    default_fg: Color,
    default_bg: Color,
    n: nat,
    m: nat,
)
    requires
        n <= m,
    ensures
        scan_commands(front, back, width, default_fg, default_bg, n).len() <= scan_commands(
            front,
            back,
            width,
            default_fg,
            default_bg,
            m,
        ).len(),
        scan_commands(front, back, width, default_fg, default_bg, m).take(
            scan_commands(front, back, width, default_fg, default_bg, n).len() as int,
        ) == scan_commands(front, back, width, default_fg, default_bg, n),
    decreases m,
{
    let short = scan_commands(front, back, width, default_fg, default_bg, n);
    let long = scan_commands(front, back, width, default_fg, default_bg, m);
    if n == m {
        assert(long.take(short.len() as int) =~= short);
    } else {
        lemma_scan_grows(front, back, width, default_fg, default_bg, n, (m - 1) as nat);
        let before = scan_commands(front, back, width, default_fg, default_bg, (m - 1) as nat);
        assert(long.take(short.len() as int) =~= before.take(short.len() as int));
    }
}

/// What was cut short within the writing of cell `n`, after all that the
/// scan emits for the cells before it, was cut short within the frame.
pub proof fn lemma_cut_short_in_frame(
    front: Seq<PixelView>,
    back: Seq<PixelView>,
    width: int,
    default_fg: Color,
    default_bg: Color,
    n: nat,
    start: Seq<Command>,
    between: Seq<Command>,
    after: Seq<Command>,
)
    requires
        n < front.len(),
        differs(front[n as int], back[n as int]),
        between == start + scan_commands(front, back, width, default_fg, default_bg, n),
        cut_short(
            between,
            after,
            cell_commands(
                scan_state(front, back, width, default_fg, default_bg, n),
                position_of(width, n as int),
                front[n as int],
                default_fg,
                default_bg,
            ),
        ),
    ensures
        cut_short(start, after, frame_commands(front, back, width, default_fg, default_bg)),
        refused_command(start, after, frame_commands(front, back, width, default_fg, default_bg))
            == refused_command(
            between,
            after,
            cell_commands(
                scan_state(front, back, width, default_fg, default_bg, n),
                position_of(width, n as int),
                front[n as int],
                default_fg,
                default_bg,
            ),
        ),
{
    let done = scan_commands(front, back, width, default_fg, default_bg, n);
    let cell = cell_commands(
        scan_state(front, back, width, default_fg, default_bg, n),
        position_of(width, n as int),
        front[n as int],
        default_fg,
        default_bg,
    );
    let next = scan_commands(front, back, width, default_fg, default_bg, n + 1);
    let all = scan_commands(front, back, width, default_fg, default_bg, front.len());
    let frame = frame_commands(front, back, width, default_fg, default_bg);
    assert(next == done + cell);
    lemma_cut_short_second(start, between, after, done, cell);
    let k = choose|k: int| 0 <= k < next.len() && after == start + #[trigger] next.take(k);
    lemma_scan_grows(front, back, width, default_fg, default_bg, n + 1, front.len());
    assert(all.take(k) =~= all.take(next.len() as int).take(k));
    assert(frame.take(k) =~= all.take(k));
    assert(after.len() - start.len() == k);
    assert(all.take(next.len() as int)[k] == all[k]);
    assert(frame[k] == next[k]);
}

impl State {
    pub fn new(default_fg: Color, default_bg: Color) -> (r: Self)
        ensures
            r == start_state(default_fg, default_bg),
    {
        State { attr: None, pos: None, seen: false, fg: default_fg, bg: default_bg }
    }

    /// Notes that a cell is written; tells whether one was written before.
    pub fn update(&mut self) -> (r: bool)
        ensures
            r == old(self).seen,
            *final(self) == (State { seen: true, ..*old(self) }),
    {
        let old = self.seen;
        self.seen = true;
        old
    }

    /// Notes the attributes of the cell that is written; tells what is to be
    /// done about them.
    pub fn maybe_attr(&mut self, attr: Option<Attributes>) -> (r: AttributeChange)
        ensures
            r == attribute_change(old(self).attr, attr),
            *final(self) == (State { attr, ..*old(self) }),
    {
        let same: bool = match (self.attr, attr) {
            (Some(a), Some(b)) => a == b,
            (None, None) => true,
            _ => false,
        };
        if same {
            return AttributeChange::Keep;
        }
        self.attr = attr;
        match attr {
            Some(a) => AttributeChange::Apply(a),
            None => AttributeChange::Reset,
        }
    }

    /// Notes the foreground colour of the cell that is written; gives it
    /// back where it has to be set.
    pub fn maybe_fg(&mut self, fg: Color) -> (r: Option<Color>)
        ensures
            r == (if old(self).fg == fg {
                None
            } else {
                Some(fg)
            }),
            *final(self) == (State { fg, ..*old(self) }),
    {
        let changed = Self::maybe_color(&mut self.fg, fg);
        changed
    }

    /// Notes the background colour of the cell that is written; gives it
    /// back where it has to be set.
    pub fn maybe_bg(&mut self, bg: Color) -> (r: Option<Color>)
        ensures
            r == (if old(self).bg == bg {
                None
            } else {
                Some(bg)
            }),
            *final(self) == (State { bg, ..*old(self) }),
    {
        let changed = Self::maybe_color(&mut self.bg, bg);
        changed
    }

    /// Replaces `color` by `new`; gives `new` back where the two differ.
    pub fn maybe_color(color: &mut Color, new: Color) -> (r: Option<Color>)
        ensures
            r == (if *old(color) == new {
                None
            } else {
                Some(new)
            }),
            *final(color) == new,
    {
        if *color == new {
            return None;
        }
        *color = new;
        Some(new)
    }

    /// Notes the cell that is written; tells whether the cursor has to be
    /// moved to it.
    pub fn maybe_move(&mut self, pos: Position<i32>) -> (r: bool)
        ensures
            r == needs_move(old(self).pos, pos),
            *final(self) == (State { pos: Some(pos), ..*old(self) }),
    {
        let left: i32 = if pos.x == i32::MIN {
            pos.x
        } else {
            pos.x - 1
        };
        let should_move = match self.pos {
            Some(old) => old.y != pos.y || old.x != left,
            None => true,
        };
        self.pos = Some(pos);
        should_move
    }
}

/// Emits what starts the writing of a cell at `pos`.
fn write_opening<R: Rasterizer>(
    state: &mut State,
    rasterizer: &mut R,
    pos: Position<i32>,
    default_fg: Color,
    default_bg: Color,
) -> (r: Result<(), R::Error>)
    ensures
        r is Ok ==> final(rasterizer).commands() == old(rasterizer).commands() + opening_commands(
            *old(state),
            pos,
            default_fg,
            default_bg,
        ),
        r is Ok ==> *final(state) == (State { seen: true, pos: Some(pos), ..*old(state) }),
        r is Ok <==> final(rasterizer).refusals() == old(rasterizer).refusals(),
        r matches Err(e) ==> stopped(
            *old(rasterizer),
            *final(rasterizer),
            opening_commands(*old(state), pos, default_fg, default_bg),
            e,
        ),
{
    let ghost start = rasterizer.commands();
    let ghost all = opening_commands(*state, pos, default_fg, default_bg);
    if !state.update() {
        if let Err(e) = rasterizer.begin() {
            assert(rasterizer.commands() =~= start + all.take(0));
            return Err(e);
        }
        state.pos = Some(pos);
        if let Err(e) = rasterizer.move_to(pos) {
            assert(rasterizer.commands() =~= start + all.take(1));
            return Err(e);
        }
        if let Err(e) = rasterizer.default_fg(default_fg) {
            assert(rasterizer.commands() =~= start + all.take(2));
            return Err(e);
        }
        if let Err(e) = rasterizer.default_bg(default_bg) {
            assert(rasterizer.commands() =~= start + all.take(3));
            return Err(e);
        }
        assert(rasterizer.commands() =~= start + all);
    } else if state.maybe_move(pos) {
        if let Err(e) = rasterizer.move_to(pos) {
            assert(rasterizer.commands() =~= start + all.take(0));
            return Err(e);
        }
        assert(rasterizer.commands() =~= start + all);
    } else {
        assert(rasterizer.commands() =~= start + all);
    }
    Ok(())
}

/// Emits what brings the attributes to `attr`.
fn write_attributes<R: Rasterizer>(
    state: &mut State,
    rasterizer: &mut R,
    attr: Option<Attributes>,
) -> (r: Result<(), R::Error>)
    ensures
        r is Ok ==> final(rasterizer).commands() == old(rasterizer).commands() + attribute_commands(
            old(state).attr,
            attr,
        ),
        r is Ok ==> *final(state) == (State { attr, ..*old(state) }),
        r is Ok <==> final(rasterizer).refusals() == old(rasterizer).refusals(),
        r matches Err(e) ==> stopped(
            *old(rasterizer),
            *final(rasterizer),
            attribute_commands(old(state).attr, attr),
            e,
        ),
{
    let ghost start = rasterizer.commands();
    let ghost all = attribute_commands(state.attr, attr);
    match state.maybe_attr(attr) {
        AttributeChange::Apply(a) => {
            if let Err(e) = rasterizer.set_attribute(a) {
                assert(rasterizer.commands() =~= start + all.take(0));
                return Err(e);
            }
        },
        AttributeChange::Reset => {
            if let Err(e) = rasterizer.reset_attribute() {
                assert(rasterizer.commands() =~= start + all.take(0));
                return Err(e);
            }
        },
        AttributeChange::Keep => {},
    }
    assert(rasterizer.commands() =~= start + all);
    Ok(())
}

/// Emits what brings the foreground colour to `fg`.
fn write_fg<R: Rasterizer>(state: &mut State, rasterizer: &mut R, fg: Color) -> (r: Result<
    (),
    R::Error,
>)
    ensures
        r is Ok ==> final(rasterizer).commands() == old(rasterizer).commands() + fg_commands(
            old(state).fg,
            fg,
        ),
        r is Ok ==> *final(state) == (State { fg, ..*old(state) }),
        r is Ok <==> final(rasterizer).refusals() == old(rasterizer).refusals(),
        r matches Err(e) ==> stopped(
            *old(rasterizer),
            *final(rasterizer),
            fg_commands(old(state).fg, fg),
            e,
        ),
{
    let ghost start = rasterizer.commands();
    let ghost all = fg_commands(state.fg, fg);
    if let Some(color) = state.maybe_fg(fg) {
        if let Err(e) = rasterizer.set_fg(color) {
            assert(rasterizer.commands() =~= start + all.take(0));
            return Err(e);
        }
    }
    assert(rasterizer.commands() =~= start + all);
    Ok(())
}

/// Emits what brings the background colour to `bg`.
fn write_bg<R: Rasterizer>(state: &mut State, rasterizer: &mut R, bg: Color) -> (r: Result<
    (),
    R::Error,
>)
    ensures
        r is Ok ==> final(rasterizer).commands() == old(rasterizer).commands() + bg_commands(
            old(state).bg,
            bg,
        ),
        r is Ok ==> *final(state) == (State { bg, ..*old(state) }),
        r is Ok <==> final(rasterizer).refusals() == old(rasterizer).refusals(),
        r matches Err(e) ==> stopped(
            *old(rasterizer),
            *final(rasterizer),
            bg_commands(old(state).bg, bg),
            e,
        ),
{
    let ghost start = rasterizer.commands();
    let ghost all = bg_commands(state.bg, bg);
    if let Some(color) = state.maybe_bg(bg) {
        if let Err(e) = rasterizer.set_bg(color) {
            assert(rasterizer.commands() =~= start + all.take(0));
            return Err(e);
        }
    }
    assert(rasterizer.commands() =~= start + all);
    Ok(())
}

/// Emits the commands that write one changed cell, and notes in `state`
/// what was written. The first command that the sink refuses ends the
/// writing with the sink's error: the sink has then taken the commands
/// before it and none after it.
pub fn write_cell<R: Rasterizer>(
    state: &mut State,
    rasterizer: &mut R,
    pos: Position<i32>,
    pixel: &Pixel,
    default_fg: Color,
    default_bg: Color,
) -> (r: Result<(), R::Error>)
    ensures
        r is Ok ==> final(rasterizer).commands() == old(rasterizer).commands() + cell_commands(
            *old(state),
            pos,
            pixel@,
            default_fg,
            default_bg,
        ),
        r is Ok ==> *final(state) == cell_state(*old(state), pos, pixel@, default_fg, default_bg),
        r is Ok <==> final(rasterizer).refusals() == old(rasterizer).refusals(),
        r matches Err(e) ==> stopped(
            *old(rasterizer),
            *final(rasterizer),
            cell_commands(*old(state), pos, pixel@, default_fg, default_bg),
            e,
        ),
{
    let ghost start = rasterizer.commands();
    let ghost first = *state;
    let fg = pixel.foreground.get_or_default(default_fg);
    let bg = pixel.background.get_or_default(default_bg);
    let ghost a = opening_commands(first, pos, default_fg, default_bg);
    let ghost b = attribute_commands(first.attr, pixel@.attributes);
    let ghost c = fg_commands(first.fg, fg);
    let ghost d = bg_commands(first.bg, bg);
    let ghost e = seq![Command::Write(pixel@.data.text())];
    if let Err(error) = write_opening(state, rasterizer, pos, default_fg, default_bg) {
        proof {
            lemma_cut_short_first(start, rasterizer.commands(), a, b + c + d + e);
            assert(a + (b + c + d + e) =~= a + b + c + d + e);
        }
        return Err(error);
    }
    let ghost opened = rasterizer.commands();
    if let Err(error) = write_attributes(state, rasterizer, pixel.attributes) {
        proof {
            lemma_cut_short_first(opened, rasterizer.commands(), b, c + d + e);
            lemma_cut_short_second(start, opened, rasterizer.commands(), a, b + (c + d + e));
            assert(a + (b + (c + d + e)) =~= a + b + c + d + e);
        }
        return Err(error);
    }
    let ghost styled = rasterizer.commands();
    if let Err(error) = write_fg(state, rasterizer, fg) {
        proof {
            lemma_cut_short_first(styled, rasterizer.commands(), c, d + e);
            assert(styled =~= start + (a + b));
            lemma_cut_short_second(start, styled, rasterizer.commands(), a + b, c + (d + e));
            assert(a + b + (c + (d + e)) =~= a + b + c + d + e);
        }
        return Err(error);
    }
    let ghost fore = rasterizer.commands();
    if let Err(error) = write_bg(state, rasterizer, bg) {
        proof {
            lemma_cut_short_first(fore, rasterizer.commands(), d, e);
            assert(fore =~= start + (a + b + c));
            lemma_cut_short_second(start, fore, rasterizer.commands(), a + b + c, d + e);
            assert(a + b + c + (d + e) =~= a + b + c + d + e);
        }
        return Err(error);
    }
    let ghost coloured = rasterizer.commands();
    let text = pixel.text();
    if let Err(error) = rasterizer.write(text.as_str()) {
        proof {
            assert(coloured =~= start + (a + b + c + d));
            assert(rasterizer.commands() =~= coloured + e.take(0));
            lemma_cut_short_second(start, coloured, rasterizer.commands(), a + b + c + d, e);
        }
        return Err(error);
    }
    assert(rasterizer.commands() =~= start + cell_commands(
        first,
        pos,
        pixel@,
        default_fg,
        default_bg,
    ));
    Ok(())
}

} // verus!
