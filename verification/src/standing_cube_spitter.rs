//! Cube spitters that stand on the floor. They follow the rules of the
//! wall spitters, but a signal always makes them throw.

use crate::command::Command;
use crate::cube_spitter::{replace_cubes, replace_cubes_spec, spitter_receive_power_spec};
use crate::entity_set::{member_of, EntityId, EntitySet};
use crate::glow::{restart_spec, Glow, Part};
use crate::signals::OwnedObjects;
use vstd::prelude::*;

verus! {

/// How far above a standing spitter its cubes start when it replaces a
/// lost one or gains power.
pub const STANDING_CUBE_LIFT: u32 = 10;

/// How far above a standing spitter its cubes start when a signal makes
/// it throw.
pub const SIGNALLED_CUBE_LIFT: u32 = 5;

/// Marks an entity that is about to leave the world, so that nothing new
/// is attached to it.
#[derive(Clone, Copy, Debug, PartialEq, Eq, Structural)]
pub struct Tombstone;

/// Checks whether a powered spitter still has a cube.
///
/// The owned cubes that are no longer among `existing` are forgotten. If
/// none is left the spitter `spitter_entity` is told to throw a new one,
/// which the caller then hands to [`OwnedObjects::adopt`].
pub fn check_and_replace_cubes(
    spitter_entity: EntityId,
    owned: &mut OwnedObjects,
    existing: &EntitySet,
) -> (commands: Vec<Command>)
    ensures
        final(owned).0@ == old(owned).0@.filter(member_of(existing@)),
        commands@ == if final(owned).0@.len() == 0 {
            seq![Command::SpawnCube { spitter: spitter_entity, lift: STANDING_CUBE_LIFT }]
        } else {
            Seq::empty()
        },
{
    crate::cube_spitter::replace_lost_cubes(spitter_entity, STANDING_CUBE_LIFT, owned, existing)
}

/// The commands that follow a direct signal to a standing spitter: each
/// collider that has a material flashes, every owned cube is removed for
/// good, and a new one is thrown.
pub open spec fn standing_signal_spec(
    spitter: EntityId,
    colliders: Seq<EntityId>,
    with_material: Seq<EntityId>,
    owned: Seq<EntityId>,
) -> Seq<Command> {
    colliders.filter(member_of(with_material)).map_values(|e: EntityId| Command::Flash(e))
        + replace_cubes_spec(spitter, SIGNALLED_CUBE_LIFT, owned)
}

/// Answers a direct signal to the standing spitter `spitter_entity`.
///
/// Each of its `colliders` that has a material (is among
/// `with_material`) flashes. Every owned cube is removed for good and a
/// new cube is thrown, which the caller then hands to
/// [`OwnedObjects::adopt`].
pub fn cube_spitter_direct_signal(
    spitter_entity: EntityId,
    colliders: &Vec<EntityId>,
    with_material: &EntitySet,
    owned: &mut OwnedObjects,
) -> (commands: Vec<Command>)
    ensures
        commands@ == standing_signal_spec(
            spitter_entity,
            colliders@,
            with_material@,
            old(owned).0@,
        ),
        final(owned).0@ == Seq::<EntityId>::empty(),
{
    let lit = with_material.members_among(colliders);
    let ghost flash = |e: EntityId| Command::Flash(e);
    let mut commands: Vec<Command> = Vec::new();
    let mut i: usize = 0;
    while i < lit.len()
        invariant
            i <= lit@.len(),
            flash == (|e: EntityId| Command::Flash(e)),
            commands@ == lit@.take(i as int).map_values(flash),
        decreases lit.len() - i,
    {
        commands.push(Command::Flash(lit[i]));
        i += 1;
        proof {
            assert(commands@ =~= lit@.take(i as int).map_values(flash));
        }
    }
    proof {
        assert(lit@.take(i as int) =~= lit@);
    }
    replace_cubes(&mut commands, spitter_entity, SIGNALLED_CUBE_LIFT, owned);
    commands
}

/// Answers the spitter `spitter_entity` gaining power: its parts glow up,
/// and if it owns no cube it throws one, which the caller then hands to
/// [`OwnedObjects::adopt`].
pub fn cube_spitter_receive_power(
    spitter_entity: EntityId,
    spitter_parts: &Vec<Part>,
    animations: &EntitySet,
    owned: &OwnedObjects,
) -> (commands: Vec<Command>)
    ensures
        commands@ == spitter_receive_power_spec(
            spitter_entity,
            STANDING_CUBE_LIFT,
            spitter_parts@,
            animations@,
            owned.0@,
        ),
{
    crate::cube_spitter::receive_power(
        spitter_entity,
        STANDING_CUBE_LIFT,
        spitter_parts,
        animations,
        owned,
    )
}

/// Answers a spitter losing power: its parts fade.
pub fn cube_spitter_lose_power(
    spitter_parts: &Vec<Part>,
    animations: &EntitySet,
) -> (commands: Vec<Command>)
    ensures
        commands@ == restart_spec(spitter_parts@, animations@, Glow::Down),
{
    crate::glow::restart_glow(spitter_parts, animations, Glow::Down)
}

} // verus!
