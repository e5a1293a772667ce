//! The sink: what a compositor emits its commands to.

use vstd::prelude::*;

use crate::attributes::Attributes;
use crate::color::Color;
use crate::math::{Position, Size};

pub mod buffered_rasterizer;
pub mod debug_rasterizer;

pub use buffered_rasterizer::BufferedRasterizer;
pub use debug_rasterizer::DebugRasterizer;

verus! {

/// One command to a sink, as a mathematical value.
pub enum Command {
    /// A frame starts.
    Begin,
    /// A frame ends.
    End,
    /// The rectangle of the given size at the given position is cleared.
    Clear(Position<i32>, Size<u32>),
    /// A screen of the given size is cleared to a background colour.
    ClearScreen(Color, Size<u32>),
    /// The cursor moves to a cell.
    MoveTo(Position<i32>),
    /// The frame's default foreground colour.
    DefaultFg(Color),
    /// The frame's default background colour.
    DefaultBg(Color),
    /// The foreground colour of the cells that follow.
    SetFg(Color),
    /// The background colour of the cells that follow.
    SetBg(Color),
    /// The attributes of the cells that follow.
    SetAttribute(Attributes),
    /// The foreground colour goes back to the terminal's own.
    ResetFg,
    /// The background colour goes back to the terminal's own.
    ResetBg,
    /// The attributes are switched off.
    ResetAttribute,
    /// Text is written at the cursor, which advances.
    Write(Seq<char>),
}

/// How many of the commands `pick` holds of.
pub open spec fn count_where(commands: Seq<Command>, pick: spec_fn(Command) -> bool) -> nat
    decreases commands.len(),
{
    if commands.len() == 0 {
        0
    } else {
        count_where(commands.drop_last(), pick) + (if pick(commands.last()) {
            1nat
        } else {
            0
        })
    }
}

/// The commands that write text.
pub open spec fn writes() -> spec_fn(Command) -> bool {
    |c: Command| c is Write
}

/// The commands that move the cursor.
pub open spec fn moves() -> spec_fn(Command) -> bool {
    |c: Command| c is MoveTo
}

/// The commands that set the foreground colour.
pub open spec fn foregrounds() -> spec_fn(Command) -> bool {
    |c: Command| c is SetFg
}

/// The commands that set the background colour.
pub open spec fn backgrounds() -> spec_fn(Command) -> bool {
    |c: Command| c is SetBg
}

/// How many of the commands write text.
pub open spec fn count_writes(commands: Seq<Command>) -> nat {
    count_where(commands, writes())
}

/// How many of the commands move the cursor.
pub open spec fn count_moves(commands: Seq<Command>) -> nat {
    count_where(commands, moves())
}

/// How many of the commands set the foreground colour.
pub open spec fn count_set_fg(commands: Seq<Command>) -> nat {
    count_where(commands, foregrounds())
}

/// How many of the commands set the background colour.
pub open spec fn count_set_bg(commands: Seq<Command>) -> nat {
    count_where(commands, backgrounds())
}

/// Counting in two sequences one after the other adds up.
pub proof fn lemma_count_concat(
    first: Seq<Command>,
    second: Seq<Command>,
    pick: spec_fn(Command) -> bool,
)
    ensures
        count_where(first + second, pick) == count_where(first, pick) + count_where(second, pick),
    decreases second.len(),
{
    if second.len() == 0 {
        assert(first + second =~= first);
    } else {
        assert((first + second).drop_last() =~= first + second.drop_last());
        lemma_count_concat(first, second.drop_last(), pick);
    }
}

/// Counting in a sequence of one command.
pub proof fn lemma_count_one(command: Command, pick: spec_fn(Command) -> bool)
    ensures
        count_where(seq![command], pick) == (if pick(command) {
            1nat
        } else {
            0
        }),
{
    assert(seq![command].drop_last() =~= Seq::<Command>::empty());
    reveal_with_fuel(count_where, 2);
}

/// Whether `after` is `before` followed by the start of `added`, but not by
/// all of it.
pub open spec fn cut_short(before: Seq<Command>, after: Seq<Command>, added: Seq<Command>) -> bool {
    exists|k: int| 0 <= k < added.len() && after == before + #[trigger] added.take(k)
}

/// What was cut short within the first of two parts was cut short within
/// the two.
pub proof fn lemma_cut_short_first(
    before: Seq<Command>,
    after: Seq<Command>,
    first: Seq<Command>,
    second: Seq<Command>,
)
    requires
        cut_short(before, after, first),
    ensures
        cut_short(before, after, first + second),
        refused_command(before, after, first + second) == refused_command(before, after, first),
{
    let k = choose|k: int| 0 <= k < first.len() && after == before + #[trigger] first.take(k);
    assert((first + second).take(k) =~= first.take(k));
}

/// What was cut short within the second of two parts, after all of the
/// first, was cut short within the two.
pub proof fn lemma_cut_short_second(
    before: Seq<Command>,
    between: Seq<Command>,
    after: Seq<Command>,
    first: Seq<Command>,
    second: Seq<Command>,
)
    requires
        between == before + first,
        cut_short(between, after, second),
    ensures
        cut_short(before, after, first + second),
        refused_command(before, after, first + second) == refused_command(between, after, second),
{
    let k = choose|k: int| 0 <= k < second.len() && after == between + #[trigger] second.take(k);
    assert((first + second).take(first.len() + k) =~= first + second.take(k));
    assert(before + (first + second).take(first.len() + k) =~= between + second.take(k));
}

/// The command of `added` that a sink refused which had taken `before`
/// when it was handed the commands of `added` one after the other, and has
/// taken `after` now: the one that follows those taken.
pub open spec fn refused_command(
    before: Seq<Command>,
    after: Seq<Command>,
    added: Seq<Command>,
) -> Command {
    added[after.len() - before.len()]
}

/// Whether `after` is the sink `before` once it has been handed commands of
/// `added`, in order, up to one that it refused with `error`: it has taken
/// those before that one, has refused that one and no other, and has been
/// handed none after it.
pub open spec fn stopped<R: Rasterizer>(
    before: R,
    after: R,
    added: Seq<Command>,
    error: R::Error,
) -> bool {
    &&& cut_short(before.commands(), after.commands(), added)
    &&& after.refusals() == before.refusals().push(
        (refused_command(before.commands(), after.commands(), added), error),
    )
}

/// A sink for the commands of a compositor.
///
/// `commands` is the sequence of commands that the sink has taken so far,
/// and `refusals` that of the commands that it has refused, each with the
/// error that it gave. Every call is noted in one of the two: a command that
/// returns `Ok` has been taken, and one that returns an error has been
/// refused, so that a call has succeeded exactly if the refusals are what
/// they were. A sink that never notes a refusal, as the two of this
/// library, takes every command.
pub trait Rasterizer {
    type Error;

    /// The commands taken so far, in order.
    spec fn commands(&self) -> Seq<Command>;

    /// The commands refused so far, in order, each with the error given.
    spec fn refusals(&self) -> Seq<(Command, Self::Error)>;

    fn begin(&mut self) -> (r: Result<(), Self::Error>)
        ensures
            r is Ok ==> final(self).commands() == old(self).commands().push(Command::Begin),
            r is Err ==> final(self).commands() == old(self).commands(),
            r is Ok <==> final(self).refusals() == old(self).refusals(),
            r matches Err(e) ==> final(self).refusals() == old(self).refusals().push(
                (Command::Begin, e),
            ),
    ;

    fn end(&mut self) -> (r: Result<(), Self::Error>)
        ensures
            r is Ok ==> final(self).commands() == old(self).commands().push(Command::End),
            r is Err ==> final(self).commands() == old(self).commands(),
            r is Ok <==> final(self).refusals() == old(self).refusals(),
            r matches Err(e) ==> final(self).refusals() == old(self).refusals().push(
                (Command::End, e),
            ),
    ;

    fn clear(&mut self, pos: Position<i32>, size: Size<u32>) -> (r: Result<(), Self::Error>)
        ensures
            r is Ok ==> final(self).commands() == old(self).commands().push(
                Command::Clear(pos, size),
            ),
            r is Err ==> final(self).commands() == old(self).commands(),
            r is Ok <==> final(self).refusals() == old(self).refusals(),
            r matches Err(e) ==> final(self).refusals() == old(self).refusals().push(
                (Command::Clear(pos, size), e),
            ),
    ;

    fn clear_screen(&mut self, bg: Color, size: Size<u32>) -> (r: Result<(), Self::Error>)
        requires
            size.height <= i32::MAX,
        ensures
            r is Ok ==> final(self).commands() == old(self).commands().push(
                Command::ClearScreen(bg, size),
            ),
            r is Err ==> final(self).commands() == old(self).commands(),
            r is Ok <==> final(self).refusals() == old(self).refusals(),
            r matches Err(e) ==> final(self).refusals() == old(self).refusals().push(
                (Command::ClearScreen(bg, size), e),
            ),
    ;

    fn move_to(&mut self, pos: Position<i32>) -> (r: Result<(), Self::Error>)
        ensures
            r is Ok ==> final(self).commands() == old(self).commands().push(Command::MoveTo(pos)),
            r is Err ==> final(self).commands() == old(self).commands(),
            r is Ok <==> final(self).refusals() == old(self).refusals(),
            r matches Err(e) ==> final(self).refusals() == old(self).refusals().push(
                (Command::MoveTo(pos), e),
            ),
    ;

    fn default_fg(&mut self, color: Color) -> (r: Result<(), Self::Error>)
        ensures
            r is Ok ==> final(self).commands() == old(self).commands().push(
                Command::DefaultFg(color),
            ),
            r is Err ==> final(self).commands() == old(self).commands(),
            r is Ok <==> final(self).refusals() == old(self).refusals(),
            r matches Err(e) ==> final(self).refusals() == old(self).refusals().push(
                (Command::DefaultFg(color), e),
            ),
    ;

    fn default_bg(&mut self, color: Color) -> (r: Result<(), Self::Error>)
        ensures
            r is Ok ==> final(self).commands() == old(self).commands().push(
                Command::DefaultBg(color),
            ),
            r is Err ==> final(self).commands() == old(self).commands(),
            r is Ok <==> final(self).refusals() == old(self).refusals(),
            r matches Err(e) ==> final(self).refusals() == old(self).refusals().push(
                (Command::DefaultBg(color), e),
            ),
    ;

    fn set_fg(&mut self, color: Color) -> (r: Result<(), Self::Error>)
        ensures
            r is Ok ==> final(self).commands() == old(self).commands().push(Command::SetFg(color)),
            r is Err ==> final(self).commands() == old(self).commands(),
            r is Ok <==> final(self).refusals() == old(self).refusals(),
            r matches Err(e) ==> final(self).refusals() == old(self).refusals().push(
                (Command::SetFg(color), e),
            ),
    ;

    fn set_bg(&mut self, color: Color) -> (r: Result<(), Self::Error>)
        ensures
            r is Ok ==> final(self).commands() == old(self).commands().push(Command::SetBg(color)),
            r is Err ==> final(self).commands() == old(self).commands(),
            r is Ok <==> final(self).refusals() == old(self).refusals(),
            r matches Err(e) ==> final(self).refusals() == old(self).refusals().push(
                (Command::SetBg(color), e),
            ),
    ;

    fn set_attribute(&mut self, attribute: Attributes) -> (r: Result<(), Self::Error>)
        ensures
            r is Ok ==> final(self).commands() == old(self).commands().push(
                Command::SetAttribute(attribute),
            ),
            r is Err ==> final(self).commands() == old(self).commands(),
            r is Ok <==> final(self).refusals() == old(self).refusals(),
            r matches Err(e) ==> final(self).refusals() == old(self).refusals().push(
                (Command::SetAttribute(attribute), e),
            ),
    ;

    fn reset_fg(&mut self) -> (r: Result<(), Self::Error>)
        ensures
            r is Ok ==> final(self).commands() == old(self).commands().push(Command::ResetFg),
            r is Err ==> final(self).commands() == old(self).commands(),
            r is Ok <==> final(self).refusals() == old(self).refusals(),
            r matches Err(e) ==> final(self).refusals() == old(self).refusals().push(
                (Command::ResetFg, e),
            ),
    ;

    fn reset_bg(&mut self) -> (r: Result<(), Self::Error>)
        ensures
            r is Ok ==> final(self).commands() == old(self).commands().push(Command::ResetBg),
            r is Err ==> final(self).commands() == old(self).commands(),
            r is Ok <==> final(self).refusals() == old(self).refusals(),
            r matches Err(e) ==> final(self).refusals() == old(self).refusals().push(
                (Command::ResetBg, e),
            ),
    ;

    fn reset_attribute(&mut self) -> (r: Result<(), Self::Error>)
        ensures
            r is Ok ==> final(self).commands() == old(self).commands().push(
                Command::ResetAttribute,
            ),
            r is Err ==> final(self).commands() == old(self).commands(),
            r is Ok <==> final(self).refusals() == old(self).refusals(),
            r matches Err(e) ==> final(self).refusals() == old(self).refusals().push(
                (Command::ResetAttribute, e),
            ),
    ;

    fn write(&mut self, data: &str) -> (r: Result<(), Self::Error>)
        ensures
            r is Ok ==> final(self).commands() == old(self).commands().push(Command::Write(data@)),
            r is Err ==> final(self).commands() == old(self).commands(),
            r is Ok <==> final(self).refusals() == old(self).refusals(),
            r matches Err(e) ==> final(self).refusals() == old(self).refusals().push(
                (Command::Write(data@), e),
            ),
    ;
}

} // verus!
