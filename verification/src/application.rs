//! What an application tells the loop that drives it, and what the loop
//! decides between two frames.

use vstd::prelude::*;

use crate::math::Size;
use crate::terminal::Event;

verus! {

/// What is to happen after an event was handled.
#[derive(Copy, Clone, Default, Debug, PartialEq, Eq, Structural)]
#[non_exhaustive]
pub enum Action {
    /// The loop goes on.
    #[default]
    Continue,
    /// The loop ends.
    Quit,
}

/// Whether a frame is to be rendered after an update.
#[derive(Copy, Clone, Default, Debug, PartialEq, Eq, Structural)]
pub enum ShouldRender {
    #[default]
    Yes,
    No,
}

/// What the loop itself does about an event before the application sees it.
#[derive(Copy, Clone, Debug, PartialEq, Eq)]
pub enum EventEffect {
    /// The loop ends; the application does not see the event.
    Stop,
    /// The compositor takes the new size; the application sees the event.
    Resize(Size<u32>),
    /// Nothing; the application sees the event.
    Pass,
}

/// What the loop does about an event: it ends when the terminal goes away,
/// and follows the terminal's size.
pub open spec fn spec_event_effect(event: Event) -> EventEffect {
    match event {
        Event::Quit => EventEffect::Stop,
        Event::Resize { size } => EventEffect::Resize(size),
        _ => EventEffect::Pass,
    }
}

/// What the loop does about `event` before the application sees it.
pub fn event_effect(event: &Event) -> (r: EventEffect)
    ensures
        r == spec_event_effect(*event),
{
    match event {
        Event::Quit => EventEffect::Stop,
        Event::Resize { size } => EventEffect::Resize(*size),
        _ => EventEffect::Pass,
    }
}

/// Whether a frame is rendered: each new size and the application's wish
/// turn the decision over, starting from not rendering.
pub fn should_redraw(resizes: usize, update: ShouldRender) -> (r: bool)
    ensures
        r == ((resizes % 2 == 1) != (update == ShouldRender::Yes)),
{
    let wanted = match update {
        ShouldRender::Yes => true,
        ShouldRender::No => false,
    };
    (resizes % 2 == 1) != wanted
}

/// What is left of `a` when `b` is taken from it, and nothing where `b` is
/// the larger.
pub open spec fn minus(a: u64, b: u64) -> u64 {
    if a >= b {
        (a - b) as u64
    } else {
        0
    }
}

/// How long the loop waits after a frame, in nanoseconds: the time that a
/// frame is meant to take, less the time that this one took and less what
/// the last wait overran.
pub fn frame_wait(target: u64, elapsed: u64, lag: u64) -> (r: u64)
    ensures
        r == minus(minus(target, elapsed), lag),
{
    target.saturating_sub(elapsed).saturating_sub(lag)
}

/// By how much a wait overran, in nanoseconds: the time slept less the time
/// that was to be waited.
pub fn frame_lag(slept: u64, wait: u64) -> (r: u64)
    ensures
        r == minus(slept, wait),
{
    slept.saturating_sub(wait)
}

} // verus!
