//! A repeating countdown, driven by `bevy`'s `Timer`.

use bevy::time::{Timer, TimerMode};
use std::time::Duration;
use vstd::prelude::*;

verus! {

/// Nanoseconds in one second.
pub const NANOS_PER_SECOND: u64 = 1_000_000_000;

/// A repeating countdown: the plain state of a repeating `bevy` timer.
///
/// `duration` and `elapsed` are in nanoseconds. `finished` tells whether the
/// last tick reached the duration.
#[derive(Clone, Copy, Debug, PartialEq, Eq, Structural)]
pub struct Countdown {
    pub duration: u64,
    pub elapsed: u64,
    pub finished: bool,
}

/// The time left on a repeating countdown of length `duration` once `total`
/// nanoseconds have gone by and every full period has been taken off.
pub open spec fn wrapped_elapsed(duration: int, total: int) -> int {
    if total < duration {
        total
    } else if duration == 0 {
        0
    } else {
        total % duration
    }
}

/// One tick of `bevy::time::Timer::tick` on an unpaused timer in
/// `TimerMode::Repeating` that holds `duration` and `elapsed`.
///
/// The timer adds `delta` to the elapsed time and is finished exactly when the
/// sum has reached the duration; a finished timer keeps the remainder of the
/// sum by the duration, or zero where the duration is zero. The result is the
/// new elapsed time and the finished flag.
#[verifier::external_body]
fn repeating_timer_tick(duration: u64, elapsed: u64, delta: u64) -> (out: (u64, bool))
    ensures
        out.1 == (elapsed + delta >= duration),
        out.0 == wrapped_elapsed(duration as int, elapsed + delta),
{
    let mut timer = Timer::new(Duration::from_nanos(duration), TimerMode::Repeating);
    timer.set_elapsed(Duration::from_nanos(elapsed));
    timer.tick(Duration::from_nanos(delta));
    (timer.elapsed().as_nanos() as u64, timer.finished())
}

impl Countdown {
    /// The countdown after one tick of `delta` nanoseconds.
    pub open spec fn ticked(self, delta: u64) -> Countdown {
        Countdown {
            duration: self.duration,
            elapsed: wrapped_elapsed(self.duration as int, self.elapsed + delta) as u64,
            finished: self.elapsed + delta >= self.duration,
        }
    }

    /// A fresh repeating countdown of `duration` nanoseconds.
    pub fn repeating(duration: u64) -> (c: Countdown)
        ensures
            c == (Countdown { duration, elapsed: 0, finished: false }),
    {
        Countdown { duration, elapsed: 0, finished: false }
    }

    /// A fresh repeating countdown of `seconds` whole seconds.
    pub fn from_seconds(seconds: u32) -> (c: Countdown)
        ensures
            c.duration == seconds * NANOS_PER_SECOND,
            c.elapsed == 0,
            !c.finished,
    {
        let duration: u64 = seconds as u64 * NANOS_PER_SECOND;
        Countdown { duration, elapsed: 0, finished: false }
    }

    /// Advances the countdown by `delta` nanoseconds. At most one expiry is
    /// recorded however long `delta` is.
    pub fn tick(&mut self, delta: u64)
        ensures
            *final(self) == old(self).ticked(delta),
    {
        let out = repeating_timer_tick(self.duration, self.elapsed, delta);
        self.elapsed = out.0;
        self.finished = out.1;
    }

    /// Whether the last tick reached the duration.
    pub fn finished(&self) -> (b: bool)
        ensures
            b == self.finished,
    {
        self.finished
    }

    /// Replaces the duration; elapsed time and finished flag stay.
    pub fn set_duration(&mut self, duration: u64)
        ensures
            *final(self) == (Countdown { duration, ..*old(self) }),
    {
        self.duration = duration;
    }
}

} // verus!
