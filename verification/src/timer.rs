//! One-shot countdowns, advanced by the engine's timer.

use bevy::time::{Timer, TimerMode};
use std::time::Duration;
use vstd::prelude::*;

verus! {

/// Nanoseconds in one millisecond.
pub const NANOS_PER_MILLI: u64 = 1_000_000;

/// Nanoseconds in one second.
pub const NANOS_PER_SEC: u64 = 1_000_000_000;

/// What a one-shot timer holds after `delta` more nanoseconds: it stops at
/// its duration, and is finished once it has reached it.
pub open spec fn advance(elapsed: nat, duration: nat, delta: nat) -> (nat, bool) {
    if elapsed + delta >= duration {
        (duration, true)
    } else {
        (elapsed + delta, false)
    }
}

/// Runs `bevy::time::Timer::tick` on a fresh, unpaused timer in mode `Once`
/// with the given duration and elapsed time.
///
/// Trusted: the timer adds `delta_ns` to the elapsed time, reports itself
/// finished when the sum has reached the duration, and then holds the
/// elapsed time at the duration.
#[verifier::external_body]
fn tick_once(elapsed_ns: u64, duration_ns: u64, delta_ns: u64) -> (after: (u64, bool))
    ensures
        (after.0 as nat, after.1) == advance(elapsed_ns as nat, duration_ns as nat, delta_ns as nat),
{
    let mut timer = Timer::new(Duration::from_nanos(duration_ns), TimerMode::Once);
    timer.set_elapsed(Duration::from_nanos(elapsed_ns));
    timer.tick(Duration::from_nanos(delta_ns));
    (timer.elapsed().as_nanos() as u64, timer.finished())
}

/// A timer that runs once from zero to its duration and then stays
/// finished.
#[derive(Clone, Copy, Debug, PartialEq, Eq, Structural)]
pub struct Countdown {
    /// Nanoseconds counted so far.
    pub elapsed_ns: u64,
    /// Nanoseconds after which the countdown is finished.
    pub duration_ns: u64,
    /// Whether a tick has reached the duration.
    pub finished: bool,
}

impl Countdown {
    /// The elapsed time never passes the duration, and a finished
    /// countdown stands at its duration.
    pub open spec fn wf(&self) -> bool {
        &&& self.elapsed_ns <= self.duration_ns
        &&& self.finished ==> self.elapsed_ns == self.duration_ns
    }

    /// The countdown after a tick of `delta_ns`.
    pub open spec fn after_tick(&self, delta_ns: u64) -> Countdown {
        if self.finished {
            *self
        } else {
            let next = advance(self.elapsed_ns as nat, self.duration_ns as nat, delta_ns as nat);
            Countdown {
                elapsed_ns: next.0 as u64,
                duration_ns: self.duration_ns,
                finished: next.1,
            }
        }
    }

    /// A countdown of `duration_ns` nanoseconds that has not started.
    pub fn new(duration_ns: u64) -> (countdown: Countdown)
        ensures
            countdown == (Countdown { elapsed_ns: 0, duration_ns, finished: false }),
            countdown.wf(),
    {
        Countdown { elapsed_ns: 0, duration_ns, finished: false }
    }

    /// A countdown of `millis` milliseconds; `None` where that many
    /// nanoseconds do not fit in 64 bits.
    pub fn from_millis(millis: u64) -> (countdown: Option<Countdown>)
        ensures
            countdown == if millis * NANOS_PER_MILLI <= u64::MAX {
                Some(Countdown { elapsed_ns: 0, duration_ns: (millis * NANOS_PER_MILLI) as u64, finished: false })
            } else {
                None
            },
    {
        match millis.checked_mul(NANOS_PER_MILLI) {
            Some(duration_ns) => Some(Countdown::new(duration_ns)),
            None => None,
        }
    }

    /// Whether the countdown has reached its duration.
    pub fn finished(&self) -> (done: bool)
        ensures
            done == self.finished,
    {
        self.finished
    }

    /// Nanoseconds still to go.
    pub fn remaining_ns(&self) -> (left: u64)
        requires
            self.wf(),
        ensures
            left == self.duration_ns - self.elapsed_ns,
    {
        self.duration_ns - self.elapsed_ns
    }

    /// Advances the countdown by `delta_ns`. A finished countdown does not
    /// move.
    pub fn tick(&mut self, delta_ns: u64)
        ensures
            *final(self) == old(self).after_tick(delta_ns),
            old(self).wf() ==> final(self).wf(),
    {
        if !self.finished {
            let after = tick_once(self.elapsed_ns, self.duration_ns, delta_ns);
            self.elapsed_ns = after.0;
            self.finished = after.1;
        }
    }
}

/// Once finished, a countdown stays as it is whatever time passes.
pub proof fn lemma_finished_is_final(countdown: Countdown, delta_ns: u64)
    requires
        countdown.finished,
    ensures
        countdown.after_tick(delta_ns) == countdown,
{
}

/// A tick that covers the remaining time finishes the countdown, and a
/// shorter one does not.
pub proof fn lemma_finishes_exactly_when_due(countdown: Countdown, delta_ns: u64)
    requires
        countdown.wf(),
        !countdown.finished,
    ensures
        countdown.after_tick(delta_ns).finished <==> delta_ns >= countdown.duration_ns
            - countdown.elapsed_ns,
{
}

/// Two ticks in a row do what one tick of their sum does.
pub proof fn lemma_ticks_add_up(countdown: Countdown, first_ns: u64, second_ns: u64)
    requires
        countdown.wf(),
        first_ns + second_ns <= u64::MAX,
    ensures
        countdown.after_tick(first_ns).after_tick(second_ns) == countdown.after_tick(
            (first_ns + second_ns) as u64,
        ),
{
}

} // verus!
