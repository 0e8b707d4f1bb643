//! The interval timer under the drivers: `bevy`'s `Timer`.
//!
//! The timer's code is not verified here. This file states, as contracts that
//! the verifier takes on trust, what the drivers rely on of it: how a tick, a
//! reset and the constructor change the time counted, the finished flag, and
//! which parts of a timer they leave alone. Times are in nanoseconds.

use vstd::prelude::*;
use bevy::time::{Timer, TimerMode};
use bevy::utils::Duration;

verus! {

/// `bevy::time::Timer`, taken as a value whose inside is not seen here.
#[verifier::external_type_specification]
#[verifier::external_body]
pub struct ExTimer(Timer);

/// `bevy::time::TimerMode`, with its two variants `Once` and `Repeating`
/// as they are declared there.
#[verifier::external_type_specification]
pub struct ExTimerMode(TimerMode);

/// The time `timer` has counted: what `Timer::elapsed` returns, in
/// nanoseconds.
pub uninterp spec fn timer_elapsed(timer: Timer) -> nat;

/// The length of `timer`'s interval: what `Timer::duration` returns, in
/// nanoseconds.
pub uninterp spec fn timer_duration(timer: Timer) -> nat;

/// What `Timer::finished` returns of `timer`.
pub uninterp spec fn timer_finished(timer: Timer) -> bool;

/// What `Timer::mode` returns of `timer`.
pub uninterp spec fn timer_mode(timer: Timer) -> TimerMode;

/// What `Timer::paused` returns of `timer`.
pub uninterp spec fn timer_paused(timer: Timer) -> bool;

/// The longest time a `Duration` holds: `u64::MAX` seconds and a nanosecond
/// short of one more.
pub open spec fn longest_duration() -> nat {
    18_446_744_073_709_551_615_999_999_999
}

/// `Timer::new`, on the interval as `Duration::from_nanos` makes it: a timer
/// of that interval and mode that has counted nothing, is not finished and
/// is not paused.
#[verifier::external_body]
pub(crate) fn new_timer(period_nanos: u64, mode: TimerMode) -> (timer: Timer)
    ensures
        timer_elapsed(timer) == 0,
        timer_duration(timer) == period_nanos,
        !timer_finished(timer),
        timer_mode(timer) == mode,
        !timer_paused(timer),
{
    Timer::new(Duration::from_nanos(period_nanos), mode)
}

/// `Timer::tick`, by `delta_nanos` as `Duration::from_nanos` makes it, on a
/// timer that is not paused. The interval, the mode and the pause flag stay.
/// A one-shot timer that had finished stays as it was. Any other timer adds
/// `delta_nanos` to the time counted and is finished exactly if the sum
/// reaches the interval; the time counted is then the interval itself for a
/// one-shot timer, and for a repeating timer what is left of the sum after
/// whole intervals (zero for an interval of zero). The sum must fit a
/// `Duration`, or the addition inside the timer panics; the interval must
/// fit `u64` nanoseconds, which is how far the timer carries a remainder.
#[verifier::external_body]
pub(crate) fn tick(timer: &mut Timer, delta_nanos: u64)
    requires
        !timer_paused(*old(timer)),
        timer_duration(*old(timer)) <= u64::MAX,
        timer_elapsed(*old(timer)) + delta_nanos <= longest_duration(),
    ensures
        timer_duration(*final(timer)) == timer_duration(*old(timer)),
        timer_mode(*final(timer)) == timer_mode(*old(timer)),
        !timer_paused(*final(timer)),
        timer_mode(*old(timer)) == TimerMode::Once && timer_finished(*old(timer)) ==> {
            &&& timer_finished(*final(timer))
            &&& timer_elapsed(*final(timer)) == timer_elapsed(*old(timer))
        },
        !(timer_mode(*old(timer)) == TimerMode::Once && timer_finished(*old(timer))) ==> {
            let reached: int = timer_elapsed(*old(timer)) + delta_nanos;
            let interval: int = timer_duration(*old(timer)) as int;
            &&& timer_finished(*final(timer)) == (reached >= interval)
            &&& timer_elapsed(*final(timer)) as int == if reached < interval {
                reached
            } else if timer_mode(*old(timer)) == TimerMode::Once {
                interval
            } else if interval == 0 {
                0
            } else {
                reached % interval
            }
        },
    no_unwind
{
    timer.tick(Duration::from_nanos(delta_nanos));
}

/// `Timer::finished`.
#[verifier::external_body]
pub(crate) fn finished(timer: &Timer) -> (done: bool)
    ensures
        done == timer_finished(*timer),
{
    timer.finished()
}

/// `Timer::reset`: the time counted goes back to zero and the timer is no
/// longer finished; the interval, the mode and the pause flag stay.
#[verifier::external_body]
pub(crate) fn reset(timer: &mut Timer)
    ensures
        timer_elapsed(*final(timer)) == 0,
        !timer_finished(*final(timer)),
        timer_duration(*final(timer)) == timer_duration(*old(timer)),
        timer_mode(*final(timer)) == timer_mode(*old(timer)),
        timer_paused(*final(timer)) == timer_paused(*old(timer)),
    no_unwind
{
    timer.reset();
}

} // verus!
