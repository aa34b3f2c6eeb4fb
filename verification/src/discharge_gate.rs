//! Discharge gates: what passes through one loses its power.

use crate::command::Command;
use crate::dissolve_gate::{belongs_to_gate, is_gate_part};
use crate::entity_set::{EntityId, EntitySet};
use crate::player::RightHand;
use vstd::prelude::*;

verus! {

/// What a collision with a discharge gate does.
pub open spec fn discharge_collision_spec(
    at_gate: bool,
    body: Option<EntityId>,
    hand: Option<RightHand>,
    powered: Seq<EntityId>,
) -> Seq<Command> {
    match body {
        Some(target) => if !at_gate {
            Seq::empty()
        } else if powered.contains(target) {
            seq![Command::RemovePowered(target)]
        } else {
            match hand {
                Some(right_hand) => match right_hand.held_object {
                    Some(held) => if powered.contains(held) {
                        seq![Command::RemovePowered(held)]
                    } else {
                        Seq::empty()
                    },
                    None => Seq::empty(),
                },
                None => Seq::empty(),
            }
        },
        None => Seq::empty(),
    }
}

/// Handles the start of a collision between a collider and a part of a gate
/// (the part whose parent is `gate_parent`).
///
/// Nothing happens unless the part belongs to one of `discharge_gates`
/// and the collider has a body (`body`). A powered body loses its power.
/// Otherwise, if the body is a player (`hand` is the hand of that player)
/// who holds something powered, that loses its power.
pub fn handle_discharge_collisions(
    gate_parent: Option<EntityId>,
    discharge_gates: &EntitySet,
    body: Option<EntityId>,
    hand: Option<RightHand>,
    powered: &EntitySet,
) -> (commands: Vec<Command>)
    ensures
        commands@ == discharge_collision_spec(
            is_gate_part(gate_parent, discharge_gates@),
            body,
            hand,
            powered@,
        ),
{
    let mut commands: Vec<Command> = Vec::new();
    if !belongs_to_gate(gate_parent, discharge_gates) {
        return commands;
    }
    if let Some(target) = body {
        if powered.contains(target) {
            commands.push(Command::RemovePowered(target));
        } else if let Some(right_hand) = hand {
            if let Some(held) = right_hand.held_object {
                if powered.contains(held) {
                    commands.push(Command::RemovePowered(held));
                }
            }
        }
    }
    commands
}

} // verus!
