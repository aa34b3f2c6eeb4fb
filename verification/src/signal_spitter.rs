//! Signal spitters: a signal makes one emit a signal of its own, and a
//! powered one emits signal after signal.

use crate::command::Command;
use crate::entity_set::{member_of, EntityId, EntitySet};
use crate::glow::{restart_glow_into, restart_spec, Glow, Part};
use crate::signals::{spit_size, spit_size_spec};
use vstd::prelude::*;

verus! {

/// Milliseconds between a direct signal to a spitter and the signal it
/// emits in answer.
pub const DIRECT_SIGNAL_DELAY_MS: u32 = 1000;

/// How a powered spitter keeps emitting.
#[derive(Clone, Copy, Debug, PartialEq, Eq, Structural)]
pub struct ContinuousEmission {
    /// Milliseconds between two signals.
    pub interval_ms: u32,
}

impl ContinuousEmission {
    /// One signal per second.
    pub fn new() -> (emission: ContinuousEmission)
        ensures
            emission.interval_ms == 1000,
    {
        ContinuousEmission { interval_ms: 1000 }
    }
}

/// The signal that `spitter` queues.
pub open spec fn queued(spitter: EntityId, delay_ms: u32, immobile: bool) -> Command {
    Command::QueueSignal { spitter, delay_ms, size: spit_size_spec(immobile) }
}

/// What each collider with a material contributes to the answer to a
/// direct signal: the spitter queues a signal and the collider flashes.
pub open spec fn direct_signal_spec(
    spitter: EntityId,
    immobile: bool,
    lit: Seq<EntityId>,
) -> Seq<Command>
    decreases lit.len(),
{
    if lit.len() == 0 {
        Seq::empty()
    } else {
        direct_signal_spec(spitter, immobile, lit.drop_last()).push(
            queued(spitter, DIRECT_SIGNAL_DELAY_MS, immobile),
        ).push(Command::Flash(lit.last()))
    }
}

/// Answers a direct signal to the spitter `spitter_entity`.
///
/// For each of its `colliders` that has a material (is among
/// `with_material`) the spitter queues one signal, of the size that goes
/// with `is_immobile`, and the collider flashes.
pub fn signal_spitter_direct_signal(
    spitter_entity: EntityId,
    colliders: &Vec<EntityId>,
    with_material: &EntitySet,
    is_immobile: bool,
) -> (commands: Vec<Command>)
    ensures
        commands@ == direct_signal_spec(
            spitter_entity,
            is_immobile,
            colliders@.filter(member_of(with_material@)),
        ),
{
    let lit = with_material.members_among(colliders);
    let size = spit_size(is_immobile);
    let mut commands: Vec<Command> = Vec::new();
    let mut i: usize = 0;
    while i < lit.len()
        invariant
            i <= lit@.len(),
            size == spit_size_spec(is_immobile),
            commands@ == direct_signal_spec(spitter_entity, is_immobile, lit@.take(i as int)),
        decreases lit.len() - i,
    {
        proof {
            assert(lit@.take(i + 1).drop_last() =~= lit@.take(i as int));
        }
        commands.push(
            Command::QueueSignal { spitter: spitter_entity, delay_ms: DIRECT_SIGNAL_DELAY_MS, size },
        );
        commands.push(Command::Flash(lit[i]));
        i += 1;
    }
    proof {
        assert(lit@.take(i as int) =~= lit@);
    }
    commands
}

/// Answers the spitter `spitter_entity` gaining power: its parts glow up,
/// and it queues the first signal of its continuous emission.
pub fn signal_spitter_receive_power(
    spitter_entity: EntityId,
    spitter_parts: &Vec<Part>,
    animations: &EntitySet,
    emission: &ContinuousEmission,
    is_immobile: bool,
) -> (commands: Vec<Command>)
    ensures
        commands@ == restart_spec(spitter_parts@, animations@, Glow::Up).push(
            queued(spitter_entity, emission.interval_ms, is_immobile),
        ),
{
    let mut commands: Vec<Command> = Vec::new();
    restart_glow_into(&mut commands, spitter_parts, animations, Glow::Up);
    commands.push(
        Command::QueueSignal {
            spitter: spitter_entity,
            delay_ms: emission.interval_ms,
            size: spit_size(is_immobile),
        },
    );
    proof {
        assert(commands@ =~= restart_spec(spitter_parts@, animations@, Glow::Up).push(
            queued(spitter_entity, emission.interval_ms, is_immobile),
        ));
    }
    commands
}

/// Answers a spitter losing power: its parts fade, and every signal it
/// has queued (each of `spitter_children` that is among `pending`) is
/// dropped.
pub fn signal_spitter_lose_power(
    spitter_parts: &Vec<Part>,
    animations: &EntitySet,
    spitter_children: &Vec<EntityId>,
    pending: &EntitySet,
) -> (commands: Vec<Command>)
    ensures
        commands@ == restart_spec(spitter_parts@, animations@, Glow::Down)
            + spitter_children@.filter(member_of(pending@)).map_values(
            |e: EntityId| Command::Despawn(e),
        ),
{
    let mut commands: Vec<Command> = Vec::new();
    restart_glow_into(&mut commands, spitter_parts, animations, Glow::Down);
    let ghost head = commands@;
    let ghost drop_it = |e: EntityId| Command::Despawn(e);
    let queued_signals = pending.members_among(spitter_children);
    let mut i: usize = 0;
    proof {
        assert(head =~= restart_spec(spitter_parts@, animations@, Glow::Down));
        assert(commands@ =~= head + queued_signals@.take(0).map_values(drop_it));
    }
    while i < queued_signals.len()
        invariant
            i <= queued_signals@.len(),
            drop_it == (|e: EntityId| Command::Despawn(e)),
            commands@ == head + queued_signals@.take(i as int).map_values(drop_it),
        decreases queued_signals.len() - i,
    {
        commands.push(Command::Despawn(queued_signals[i]));
        i += 1;
        proof {
            assert(commands@ =~= head + queued_signals@.take(i as int).map_values(drop_it));
        }
    }
    proof {
        assert(queued_signals@.take(i as int) =~= queued_signals@);
    }
    commands
}

/// Keeps a powered spitter emitting: if none of its children
/// (`spitter_children`) is a queued signal (is among `pending`), it
/// queues the next one.
pub fn handle_continuous_signal_emission(
    spitter_entity: EntityId,
    emission: &ContinuousEmission,
    is_immobile: bool,
    spitter_children: &Vec<EntityId>,
    pending: &EntitySet,
) -> (commands: Vec<Command>)
    ensures
        commands@ == if spitter_children@.filter(member_of(pending@)).len() == 0 {
            seq![queued(spitter_entity, emission.interval_ms, is_immobile)]
        } else {
            Seq::empty()
        },
{
    let mut commands: Vec<Command> = Vec::new();
    let queued_signals = pending.members_among(spitter_children);
    if queued_signals.len() == 0 {
        commands.push(
            Command::QueueSignal {
                spitter: spitter_entity,
                delay_ms: emission.interval_ms,
                size: spit_size(is_immobile),
            },
        );
    }
    commands
}

} // verus!
