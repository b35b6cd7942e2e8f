use bevy::time::{Timer, TimerMode};
use core::time::Duration;
use vstd::prelude::*;

verus! {

/// bevy's `Timer`, carried through as a value that cannot be looked into.
#[verifier::external_type_specification]
#[verifier::external_body]
pub struct ExTimer(bevy::time::Timer);

/// Whether the timer has reached its duration: what `Timer::finished` reports.
pub uninterp spec fn timer_finished(timer: Timer) -> bool;

/// Whether the timer reached its duration during its latest tick: what
/// `Timer::just_finished` reports.
pub uninterp spec fn timer_just_finished(timer: Timer) -> bool;

/// The timer that `Timer::new` makes for a duration, repeating or not.
pub uninterp spec fn fresh_timer(duration: Duration, repeating: bool) -> Timer;

/// The timer as `Timer::tick` leaves it when `delta` passes.
pub uninterp spec fn ticked(timer: Timer, delta: Duration) -> Timer;

/// The timer as `Timer::reset` leaves it.
pub uninterp spec fn restarted(timer: Timer) -> Timer;

/// Calls `Timer::new` with the given duration, in repeating mode where
/// `repeating` is set and in one-shot mode otherwise. The timer it makes
/// depends on these two alone; it has not finished.
#[verifier::external_body]
pub(crate) fn new_timer(duration: Duration, repeating: bool) -> (timer: Timer)
    ensures
        timer == fresh_timer(duration, repeating),
        !timer_finished(timer),
        !timer_just_finished(timer),
{
    let mode = if repeating {
        TimerMode::Repeating
    } else {
        TimerMode::Once
    };
    Timer::new(duration, mode)
}

/// Calls `Timer::finished`, which reads the timer's `finished` flag. The
/// contract only gives that flag its name.
#[verifier::external_body]
pub(crate) fn finished(timer: &Timer) -> (done: bool)
    ensures
        done == timer_finished(*timer),
{
    timer.finished()
}

/// Calls `Timer::just_finished`, which tells whether the latest tick completed
/// the timer at least once. The contract only gives that answer its name.
#[verifier::external_body]
pub(crate) fn just_finished(timer: &Timer) -> (done: bool)
    ensures
        done == timer_just_finished(*timer),
{
    timer.just_finished()
}

/// Calls `Timer::tick`, which advances the timer by `delta`. How the timer
/// stands afterwards depends on the timer and on `delta` alone; the contract
/// only gives that outcome its name.
#[verifier::external_body]
pub(crate) fn tick(timer: &mut Timer, delta: Duration)
    ensures
        *final(timer) == ticked(*old(timer), delta),
{
    timer.tick(delta);
}

/// Calls `Timer::reset`, which zeroes the elapsed time and clears both the
/// `finished` flag and the count of completions in the latest tick.
#[verifier::external_body]
pub(crate) fn reset(timer: &mut Timer)
    ensures
        *final(timer) == restarted(*old(timer)),
        !timer_finished(*final(timer)),
        !timer_just_finished(*final(timer)),
{
    timer.reset();
}

} // verus!
