//! Signals: pulses that travel from a spitter until they hit a device.

use crate::command::Command;
use crate::entity_set::{EntityId, EntitySet};
use crate::timer::{Countdown, NANOS_PER_MILLI, NANOS_PER_SEC};
use vstd::prelude::*;

verus! {

/// How far a signal travels before it gives up, in world units.
pub const MAX_SIGNAL_TRAVEL_DIST: u32 = 500;

/// How long a signal lives, in seconds.
pub const MAX_SIGNAL_LIFETIME_SECS: u64 = 10;

/// Edge length of the signal of a spitter that can be carried.
pub const STANDARD_SPIT_SIZE: u32 = 10;

/// Edge length of the signal of a spitter that is fixed in place.
pub const IMMOBILE_SPIT_SIZE: u32 = 30;

/// The entities a device has spawned and still answers for.
pub struct OwnedObjects(pub Vec<EntityId>);

/// A signal that a spitter will emit once its delay has passed.
#[derive(Clone, Copy, Debug, PartialEq, Eq, Structural)]
pub struct SignalAfterDelay {
    /// Milliseconds between queueing and emission.
    pub delay_ms: u32,
    /// When the signal was queued, in nanoseconds of game time.
    pub spawn_time_ns: u64,
    /// Edge length of the signal.
    pub signal_size: u32,
}

/// What becomes of a queued signal in one step.
#[derive(Clone, Copy, Debug, PartialEq, Eq, Structural)]
pub enum DelayOutcome {
    /// The delay has not passed, or the spitter has no place in the world.
    Waiting,
    /// The signal leaves the spitter now, `lift` units above its origin.
    Launch { lift: u32, size: u32 },
}

/// The edge length of the signal that a spitter emits.
pub open spec fn spit_size_spec(immobile: bool) -> u32 {
    if immobile {
        IMMOBILE_SPIT_SIZE
    } else {
        STANDARD_SPIT_SIZE
    }
}

/// The edge length of the signal that a spitter emits: wide for a spitter
/// that is fixed in place, standard for one that can be carried.
pub fn spit_size(immobile: bool) -> (size: u32)
    ensures
        size == spit_size_spec(immobile),
{
    if immobile {
        IMMOBILE_SPIT_SIZE
    } else {
        STANDARD_SPIT_SIZE
    }
}

/// How far above the spitter a signal of the given size starts.
pub open spec fn launch_lift_spec(size: u32) -> u32 {
    if size > 10 {
        20
    } else {
        10
    }
}

/// How far above the spitter a signal of the given size starts.
pub fn launch_lift(size: u32) -> (lift: u32)
    ensures
        lift == launch_lift_spec(size),
{
    if size > 10 {
        20
    } else {
        10
    }
}

/// Whether a signal queued at `spawn_time_ns` with `delay_ms` is due at
/// `now_ns`.
pub open spec fn is_due(now_ns: u64, spawn_time_ns: u64, delay_ms: u32) -> bool {
    now_ns - spawn_time_ns >= delay_ms * NANOS_PER_MILLI
}

impl SignalAfterDelay {
    /// Decides whether the queued signal leaves its spitter at `now_ns`.
    /// It does once its delay has passed, provided the spitter has a
    /// place in the world (`spitter_placed`).
    pub fn signal_after_delay(&self, now_ns: u64, spitter_placed: bool) -> (outcome: DelayOutcome)
        requires
            self.spawn_time_ns <= now_ns,
        ensures
            outcome == if is_due(now_ns, self.spawn_time_ns, self.delay_ms) && spitter_placed {
                DelayOutcome::Launch {
                    lift: launch_lift_spec(self.signal_size),
                    size: self.signal_size,
                }
            } else {
                DelayOutcome::Waiting
            },
    {
        let waited: u64 = now_ns - self.spawn_time_ns;
        let delay_ms: u64 = self.delay_ms as u64;
        let delay_ns: u64 = delay_ms * NANOS_PER_MILLI;
        if waited >= delay_ns && spitter_placed {
            DelayOutcome::Launch { lift: launch_lift(self.signal_size), size: self.signal_size }
        } else {
            DelayOutcome::Waiting
        }
    }
}

/// What a collision of `collider` with a device does when nothing more
/// special applies.
pub open spec fn signal_collision_spec(
    body: Option<EntityId>,
    collider: EntityId,
    signals: Seq<EntityId>,
    powered_untimed: Seq<EntityId>,
) -> Seq<Command> {
    match body {
        Some(signaled) => if signals.contains(collider) && !powered_untimed.contains(collider)
            && !powered_untimed.contains(signaled) {
            seq![Command::SendDirectSignal(signaled), Command::Despawn(collider)]
        } else {
            Seq::empty()
        },
        None => Seq::empty(),
    }
}

/// Handles the start of a collision between `collider` and a device whose
/// body is `body`.
///
/// `signals` holds the signals in flight and `powered_untimed` the
/// entities that are powered without a power timer. A signal that hits an
/// unpowered body is consumed: the body gets a direct signal and the
/// signal is removed. Anything else passes without effect.
pub fn default_signal_collisions(
    body: Option<EntityId>,
    collider: EntityId,
    signals: &EntitySet,
    powered_untimed: &EntitySet,
) -> (commands: Vec<Command>)
    ensures
        commands@ == signal_collision_spec(body, collider, signals@, powered_untimed@),
{
    let mut commands: Vec<Command> = Vec::new();
    if let Some(signaled) = body {
        if signals.contains(collider) && !powered_untimed.contains(collider)
            && !powered_untimed.contains(signaled) {
            commands.push(Command::SendDirectSignal(signaled));
            commands.push(Command::Despawn(collider));
        }
    }
    commands
}

/// Removes its entity once a fixed time has passed.
#[derive(Clone, Copy, Debug, PartialEq, Eq, Structural)]
pub struct DespawnAfter {
    /// Counts down to the removal.
    pub timer: Countdown,
}

impl DespawnAfter {
    /// A removal due `duration_ns` from now.
    pub fn new(duration_ns: u64) -> (despawn: DespawnAfter)
        ensures
            despawn.timer == (Countdown { elapsed_ns: 0, duration_ns, finished: false }),
            despawn.timer.wf(),
    {
        DespawnAfter { timer: Countdown::new(duration_ns) }
    }

    /// The removal of a signal, due when its lifetime is over.
    pub fn for_signal() -> (despawn: DespawnAfter)
        ensures
            despawn.timer == (Countdown {
                elapsed_ns: 0,
                duration_ns: (MAX_SIGNAL_LIFETIME_SECS * NANOS_PER_SEC) as u64,
                finished: false,
            }),
            despawn.timer.wf(),
    {
        DespawnAfter::new(MAX_SIGNAL_LIFETIME_SECS * NANOS_PER_SEC)
    }

    /// Lets `delta_ns` pass and says whether the entity is to be removed
    /// now: it is once the timer has finished, and on every step after.
    pub fn despawn_after_system(&mut self, delta_ns: u64) -> (expired: bool)
        ensures
            final(self).timer == old(self).timer.after_tick(delta_ns),
            old(self).timer.wf() ==> final(self).timer.wf(),
            expired == final(self).timer.finished,
    {
        self.timer.tick(delta_ns);
        self.timer.finished()
    }
}

} // verus!
