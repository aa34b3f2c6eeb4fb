//! Dissolve gates: what passes through one is sent back to where it came
//! from, or is gone.

use crate::command::Command;
use crate::entity_set::{EntityId, EntitySet};
use vstd::prelude::*;

verus! {

/// Marks a device that a gate can dissolve.
#[derive(Clone, Copy, Debug, PartialEq, Eq, Structural)]
pub struct Dissolveable {
    /// Whether the device has a place to return to. One that has none is
    /// removed for good.
    pub respawns: bool,
}

/// A device that can be dissolved.
#[derive(Clone, Copy, Debug, PartialEq, Eq, Structural)]
pub struct DissolveTarget {
    /// The device.
    pub entity: EntityId,
    /// How it dissolves.
    pub dissolveable: Dissolveable,
}

/// Whether the part `gate_part` belongs to a gate: whether it has a
/// parent, and the parent is one of `gates`.
pub open spec fn is_gate_part(gate_parent: Option<EntityId>, gates: Seq<EntityId>) -> bool {
    match gate_parent {
        Some(parent) => gates.contains(parent),
        None => false,
    }
}

/// Whether a collider part with the given parent belongs to one of
/// `gates`.
pub fn belongs_to_gate(gate_parent: Option<EntityId>, gates: &EntitySet) -> (belongs: bool)
    ensures
        belongs == is_gate_part(gate_parent, gates@),
{
    match gate_parent {
        Some(parent) => gates.contains(parent),
        None => false,
    }
}

/// The commands that dissolve one device that moves freely.
pub open spec fn dissolve_free_spec(target: DissolveTarget) -> Seq<Command> {
    if target.dissolveable.respawns {
        seq![Command::Respawn(target.entity)]
    } else {
        seq![Command::Entomb(target.entity)]
    }
}

/// The commands that dissolve one device in the player's hand.
pub open spec fn dissolve_held_spec(target: DissolveTarget) -> Seq<Command> {
    if target.dissolveable.respawns {
        seq![Command::Respawn(target.entity), Command::RemoveHeld(target.entity)]
    } else {
        seq![Command::Entomb(target.entity)]
    }
}

/// What a collision with a dissolve gate does.
pub open spec fn dissolve_collision_spec(
    at_gate: bool,
    has_body: bool,
    body: Option<DissolveTarget>,
    held: Option<DissolveTarget>,
) -> Seq<Command> {
    if !at_gate || !has_body {
        Seq::empty()
    } else {
        match body {
            Some(target) => dissolve_free_spec(target),
            None => match held {
                Some(target) => dissolve_held_spec(target),
                None => Seq::empty(),
            },
        }
    }
}

fn dissolve_free(commands: &mut Vec<Command>, target: DissolveTarget)
    ensures
        final(commands)@ == old(commands)@ + dissolve_free_spec(target),
{
    if target.dissolveable.respawns {
        commands.push(Command::Respawn(target.entity));
    } else {
        commands.push(Command::Entomb(target.entity));
    }
    proof {
        assert(commands@ =~= old(commands)@ + dissolve_free_spec(target));
    }
}

fn dissolve_held(commands: &mut Vec<Command>, target: DissolveTarget)
    ensures
        final(commands)@ == old(commands)@ + dissolve_held_spec(target),
{
    if target.dissolveable.respawns {
        commands.push(Command::Respawn(target.entity));
        commands.push(Command::RemoveHeld(target.entity));
    } else {
        commands.push(Command::Entomb(target.entity));
    }
    proof {
        assert(commands@ =~= old(commands)@ + dissolve_held_spec(target));
    }
}

/// Handles the start of a collision between a collider and a part of a gate
/// (the part whose parent is `gate_parent`).
///
/// Nothing happens unless the part belongs to one of `dissolve_gates` and
/// the collider has a body (`has_body`). A body that can be dissolved
/// (`body`) is: it returns to its place, or is removed for good where it
/// has none. Otherwise, if the body is a player who holds something that
/// can be dissolved (`held`), that is dissolved, and leaves the hand if
/// it returns to its place.
pub fn handle_dissolve_collisions(
    gate_parent: Option<EntityId>,
    dissolve_gates: &EntitySet,
    has_body: bool,
    body: Option<DissolveTarget>,
    held: Option<DissolveTarget>,
) -> (commands: Vec<Command>)
    ensures
        commands@ == dissolve_collision_spec(
            is_gate_part(gate_parent, dissolve_gates@),
            has_body,
            body,
            held,
        ),
{
    let mut commands: Vec<Command> = Vec::new();
    if !belongs_to_gate(gate_parent, dissolve_gates) || !has_body {
        return commands;
    }
    match body {
        Some(target) => dissolve_free(&mut commands, target),
        None => {
            if let Some(target) = held {
                dissolve_held(&mut commands, target);
            }
        },
    }
    commands
}

/// The commands that dissolve every device of `targets` in turn.
pub open spec fn dissolve_all_spec(targets: Seq<DissolveTarget>) -> Seq<Command>
    decreases targets.len(),
{
    if targets.len() == 0 {
        Seq::empty()
    } else {
        dissolve_all_spec(targets.drop_last()) + dissolve_free_spec(targets.last())
    }
}

/// Puts the level back in order: every device that can be dissolved
/// (`dissolveables`) returns to its place or is removed, and so does what
/// the player holds (`held`), which also leaves the hand if it returns.
pub fn reset_all_objects(
    dissolveables: &Vec<DissolveTarget>,
    held: Option<DissolveTarget>,
) -> (commands: Vec<Command>)
    ensures
        commands@ == dissolve_all_spec(dissolveables@) + (match held {
            Some(target) => dissolve_held_spec(target),
            None => Seq::empty(),
        }),
{
    let mut commands: Vec<Command> = Vec::new();
    let mut i: usize = 0;
    while i < dissolveables.len()
        invariant
            i <= dissolveables@.len(),
            commands@ == dissolve_all_spec(dissolveables@.take(i as int)),
        decreases dissolveables.len() - i,
    {
        proof {
            assert(dissolveables@.take(i + 1).drop_last() =~= dissolveables@.take(i as int));
        }
        dissolve_free(&mut commands, dissolveables[i]);
        i += 1;
    }
    proof {
        assert(dissolveables@.take(i as int) =~= dissolveables@);
    }
    if let Some(target) = held {
        dissolve_held(&mut commands, target);
    }
    commands
}

} // verus!
