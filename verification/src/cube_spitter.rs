//! Cube spitters mounted on a wall: a powered one keeps one cube in the
//! world, and a signal makes it throw a fresh one.

use crate::command::{BodyKind, Command};
use crate::entity_set::{member_of, EntityId, EntitySet};
use crate::glow::{restart_glow, restart_glow_into, restart_spec, Glow, Part};
use crate::signals::OwnedObjects;
use vstd::prelude::*;

verus! {

/// How far above a wall spitter its cubes start.
pub const WALL_CUBE_LIFT: u32 = 5;

impl OwnedObjects {
    /// A device that owns nothing yet.
    pub fn new() -> (owned: OwnedObjects)
        ensures
            owned.0@ == Seq::<EntityId>::empty(),
    {
        OwnedObjects(Vec::new())
    }

    /// Forgets the owned objects that are no longer among `existing`, and
    /// says whether none is left.
    pub fn retain_existing(&mut self, existing: &EntitySet) -> (none_left: bool)
        ensures
            final(self).0@ == old(self).0@.filter(member_of(existing@)),
            none_left == (final(self).0@.len() == 0),
    {
        let kept = existing.members_among(&self.0);
        let none_left = kept.len() == 0;
        self.0 = kept;
        none_left
    }

    /// Takes `object` into ownership.
    pub fn adopt(&mut self, object: EntityId)
        ensures
            final(self).0@ == old(self).0@.push(object),
    {
        self.0.push(object);
    }
}

/// Checks whether a powered spitter still has a cube.
///
/// The owned cubes that are no longer among `existing` are forgotten. If
/// none is left the spitter `spitter` is told to throw a new one, `lift`
/// units above itself, which the caller then hands to
/// [`OwnedObjects::adopt`].
pub fn replace_lost_cubes(
    spitter: EntityId,
    lift: u32,
    owned: &mut OwnedObjects,
    existing: &EntitySet,
) -> (commands: Vec<Command>)
    ensures
        final(owned).0@ == old(owned).0@.filter(member_of(existing@)),
        commands@ == if final(owned).0@.len() == 0 {
            seq![Command::SpawnCube { spitter, lift }]
        } else {
            Seq::empty()
        },
{
    let mut commands: Vec<Command> = Vec::new();
    if owned.retain_existing(existing) {
        commands.push(Command::SpawnCube { spitter, lift });
    }
    commands
}

/// Checks whether the powered wall spitter `spitter_entity` still has a
/// cube: see [`replace_lost_cubes`].
pub fn check_and_replace_wall_cubes(
    spitter_entity: EntityId,
    owned: &mut OwnedObjects,
    existing: &EntitySet,
) -> (commands: Vec<Command>)
    ensures
        final(owned).0@ == old(owned).0@.filter(member_of(existing@)),
        commands@ == if final(owned).0@.len() == 0 {
            seq![Command::SpawnCube { spitter: spitter_entity, lift: WALL_CUBE_LIFT }]
        } else {
            Seq::empty()
        },
{
    replace_lost_cubes(spitter_entity, WALL_CUBE_LIFT, owned, existing)
}

/// The commands that replace the cubes of a spitter: every owned cube is
/// removed for good, then a new one is thrown.
pub open spec fn replace_cubes_spec(
    spitter: EntityId,
    lift: u32,
    owned: Seq<EntityId>,
) -> Seq<Command> {
    owned.map_values(|e: EntityId| Command::Entomb(e)).push(Command::SpawnCube { spitter, lift })
}

/// Appends to `commands` what replaces the cubes of `spitter`, and
/// empties `owned`.
pub fn replace_cubes(
    commands: &mut Vec<Command>,
    spitter: EntityId,
    lift: u32,
    owned: &mut OwnedObjects,
)
    ensures
        final(commands)@ == old(commands)@ + replace_cubes_spec(spitter, lift, old(owned).0@),
        final(owned).0@ == Seq::<EntityId>::empty(),
{
    let ghost entomb = |e: EntityId| Command::Entomb(e);
    let mut i: usize = 0;
    proof {
        assert(commands@ =~= old(commands)@ + owned.0@.take(0).map_values(entomb));
    }
    while i < owned.0.len()
        invariant
            i <= owned.0@.len(),
            owned.0@ == old(owned).0@,
            entomb == (|e: EntityId| Command::Entomb(e)),
            commands@ == old(commands)@ + owned.0@.take(i as int).map_values(entomb),
        decreases owned.0.len() - i,
    {
        commands.push(Command::Entomb(owned.0[i]));
        i += 1;
        proof {
            assert(commands@ =~= old(commands)@ + owned.0@.take(i as int).map_values(entomb));
        }
    }
    proof {
        assert(owned.0@.take(i as int) =~= owned.0@);
    }
    owned.0.clear();
    commands.push(Command::SpawnCube { spitter, lift });
    proof {
        assert(commands@ =~= old(commands)@ + replace_cubes_spec(spitter, lift, old(owned).0@));
    }
}

/// Answers a direct signal to the wall spitter `spitter_entity`.
///
/// The spitter reacts only if it has a first collider
/// (`first_collider`) and that collider has a material
/// (`has_material`): the collider flashes, every owned cube is removed
/// for good, and a new cube is thrown, which the caller then hands to
/// [`OwnedObjects::adopt`].
pub fn cube_spitter_direct_signal(
    spitter_entity: EntityId,
    first_collider: Option<EntityId>,
    has_material: bool,
    owned: &mut OwnedObjects,
) -> (commands: Vec<Command>)
    ensures
        match first_collider {
            Some(collider) if has_material => {
                &&& commands@ == seq![Command::Flash(collider)] + replace_cubes_spec(
                    spitter_entity,
                    WALL_CUBE_LIFT,
                    old(owned).0@,
                )
                &&& final(owned).0@ == Seq::<EntityId>::empty()
            },
            _ => commands@ == Seq::<Command>::empty() && final(owned).0@ == old(owned).0@,
        },
{
    let mut commands: Vec<Command> = Vec::new();
    if let Some(collider) = first_collider {
        if has_material {
            commands.push(Command::Flash(collider));
            replace_cubes(&mut commands, spitter_entity, WALL_CUBE_LIFT, owned);
        }
    }
    commands
}

/// The commands that follow when a spitter gains power: its parts glow
/// up, and a spitter without a cube throws one.
pub open spec fn spitter_receive_power_spec(
    spitter: EntityId,
    lift: u32,
    parts: Seq<Part>,
    animations: Seq<EntityId>,
    owned: Seq<EntityId>,
) -> Seq<Command> {
    restart_spec(parts, animations, Glow::Up) + (if owned.len() == 0 {
        seq![Command::SpawnCube { spitter, lift }]
    } else {
        Seq::empty()
    })
}

/// Answers the spitter `spitter` gaining power: its parts glow up, and if
/// it owns no cube it throws one, `lift` units above itself, which the
/// caller then hands to [`OwnedObjects::adopt`].
pub fn receive_power(
    spitter: EntityId,
    lift: u32,
    spitter_parts: &Vec<Part>,
    animations: &EntitySet,
    owned: &OwnedObjects,
) -> (commands: Vec<Command>)
    ensures
        commands@ == spitter_receive_power_spec(
            spitter,
            lift,
            spitter_parts@,
            animations@,
            owned.0@,
        ),
{
    let mut commands: Vec<Command> = Vec::new();
    restart_glow_into(&mut commands, spitter_parts, animations, Glow::Up);
    if owned.0.len() == 0 {
        commands.push(Command::SpawnCube { spitter, lift });
    }
    commands
}

/// Answers the wall spitter `spitter_entity` gaining power: see
/// [`receive_power`].
pub fn cube_spitter_receive_power(
    spitter_entity: EntityId,
    spitter_parts: &Vec<Part>,
    animations: &EntitySet,
    owned: &OwnedObjects,
) -> (commands: Vec<Command>)
    ensures
        commands@ == spitter_receive_power_spec(
            spitter_entity,
            WALL_CUBE_LIFT,
            spitter_parts@,
            animations@,
            owned.0@,
        ),
{
    receive_power(spitter_entity, WALL_CUBE_LIFT, spitter_parts, animations, owned)
}

/// Answers a spitter losing power: its parts fade.
pub fn cube_spitter_lose_power(
    spitter_parts: &Vec<Part>,
    animations: &EntitySet,
) -> (commands: Vec<Command>)
    ensures
        commands@ == restart_spec(spitter_parts@, animations@, Glow::Down),
{
    restart_glow(spitter_parts, animations, Glow::Down)
}

/// Sets up the new wall spitter `spitter_entity`: it gets a body that
/// never moves, and one that is marked as powered for good is powered.
pub fn register_cube_spitter_signals(
    spitter_entity: EntityId,
    is_permanently_powered: bool,
) -> (commands: Vec<Command>)
    ensures
        commands@ == if is_permanently_powered {
            seq![
                Command::InsertBody { entity: spitter_entity, kind: BodyKind::Static },
                Command::InsertPowered(spitter_entity),
            ]
        } else {
            seq![Command::InsertBody { entity: spitter_entity, kind: BodyKind::Static }]
        },
{
    let mut commands: Vec<Command> = Vec::new();
    commands.push(Command::InsertBody { entity: spitter_entity, kind: BodyKind::Static });
    if is_permanently_powered {
        commands.push(Command::InsertPowered(spitter_entity));
    }
    commands
}

} // verus!
