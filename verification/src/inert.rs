//! Inert devices: a signal makes them flare, and that is all.

use crate::command::Command;
use crate::entity_set::{member_of, EntityId, EntitySet};
use vstd::prelude::*;

verus! {

/// The commands that answer a direct signal to an inert device.
pub open spec fn inert_signal_spec(
    is_inert: bool,
    children: Seq<EntityId>,
    with_material: Seq<EntityId>,
) -> Seq<Command> {
    if is_inert {
        children.filter(member_of(with_material)).map_values(|e: EntityId| Command::FlareOut(e))
    } else {
        Seq::empty()
    }
}

/// Answers a direct signal to `target`. If it is inert (one of `inert`),
/// each of its `children` that has a material (is among `with_material`)
/// flares up and fades out. It never gets power.
pub fn inert_direct_signal(
    target: EntityId,
    inert: &EntitySet,
    children: &Vec<EntityId>,
    with_material: &EntitySet,
) -> (commands: Vec<Command>)
    ensures
        commands@ == inert_signal_spec(inert@.contains(target), children@, with_material@),
{
    let mut commands: Vec<Command> = Vec::new();
    if !inert.contains(target) {
        return commands;
    }
    let lit = with_material.members_among(children);
    let ghost flare = |e: EntityId| Command::FlareOut(e);
    let mut i: usize = 0;
    while i < lit.len()
        invariant
            i <= lit@.len(),
            flare == (|e: EntityId| Command::FlareOut(e)),
            commands@ == lit@.take(i as int).map_values(flare),
        decreases lit.len() - i,
    {
        commands.push(Command::FlareOut(lit[i]));
        i += 1;
        proof {
            assert(commands@ =~= lit@.take(i as int).map_values(flare));
        }
    }
    proof {
        assert(lit@.take(i as int) =~= lit@);
    }
    commands
}

} // verus!
