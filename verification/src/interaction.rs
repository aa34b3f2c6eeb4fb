//! What the player can do to the thing in front of them.

use crate::command::{BodyKind, Command};
use crate::dissolve_gate::Dissolveable;
use crate::entity_set::{head_of, member_of, EntityId, EntitySet};
use crate::player::{Held, RightHand};
use vstd::prelude::*;

verus! {

/// How far the player can reach, in world units.
pub const INTERACTION_DISTANCE: u32 = 30;

/// What using a thing does.
#[derive(Clone, Copy, Debug, PartialEq, Eq, Structural)]
pub enum Interactions {
    /// The thing is pressed.
    Press,
    /// The thing is picked up.
    PickUp,
}

/// Marks a thing that the player can use.
#[derive(Clone, Copy, Debug, PartialEq, Eq, Structural)]
pub struct Interactable {
    /// What using it does.
    pub primary_action: Interactions,
}

/// Tells a thing that the player used it.
#[derive(Clone, Copy, Debug, PartialEq, Eq, Structural)]
pub struct Interacted;

/// Marks a thing that cannot be used for now.
#[derive(Clone, Copy, Debug, PartialEq, Eq, Structural)]
pub struct InteractionsDisabled;

/// What the ray from the camera hit first.
#[derive(Clone, Copy, Debug, PartialEq, Eq)]
pub struct RayHit {
    /// The entity that was hit.
    pub entity: EntityId,
    /// How it can be used, if it can.
    pub interactable: Option<Interactable>,
}

impl Interactable {
    /// A thing with the given use.
    pub fn new(primary_action: Interactions) -> (interactable: Interactable)
        ensures
            interactable.primary_action == primary_action,
    {
        Interactable { primary_action }
    }
}

/// The use that is open to the player: that of the thing hit, except that
/// nothing can be picked up while something is held (`holding`).
pub open spec fn usable(hit: Option<RayHit>, holding: bool) -> Option<Interactions> {
    match hit {
        Some(ray_hit) => match ray_hit.interactable {
            Some(interactable) => if holding && interactable.primary_action
                == Interactions::PickUp {
                None
            } else {
                Some(interactable.primary_action)
            },
            None => None,
        },
        None => None,
    }
}

/// The use that is open to the player: see [`usable`].
pub fn usable_action(hit: Option<RayHit>, holding: bool) -> (action: Option<Interactions>)
    ensures
        action == usable(hit, holding),
{
    match hit {
        Some(ray_hit) => match ray_hit.interactable {
            Some(interactable) => match interactable.primary_action {
                Interactions::PickUp => if holding {
                    None
                } else {
                    Some(Interactions::PickUp)
                },
                Interactions::Press => Some(Interactions::Press),
            },
            None => None,
        },
        None => None,
    }
}

/// What the use key does.
pub open spec fn interact_spec(
    hit: Option<RayHit>,
    hand: RightHand,
    held: Option<Held>,
) -> Seq<Command> {
    if usable(hit, hand.held_object.is_some()).is_some() {
        seq![Command::Interact(hit.unwrap().entity)]
    } else {
        match (hand.held_object, held) {
            (Some(object), Some(mark)) => if mark.can_release {
                seq![Command::RemoveHeld(object)]
            } else {
                Seq::empty()
            },
            _ => Seq::empty(),
        }
    }
}

/// Answers the use key.
///
/// `hit` is what the ray from the camera hit within reach, `right_hand`
/// the player's hand, and `held` the mark on the object in the hand, if
/// that object carries one. A thing that can be used is used. Otherwise
/// the player lets go of what they hold, provided it may be put down
/// where it is.
pub fn interact(
    hit: Option<RayHit>,
    right_hand: &RightHand,
    held: Option<Held>,
) -> (commands: Vec<Command>)
    ensures
        commands@ == interact_spec(hit, *right_hand, held),
{
    let mut commands: Vec<Command> = Vec::new();
    let action = usable_action(hit, right_hand.held_object.is_some());
    if action.is_some() {
        if let Some(ray_hit) = hit {
            commands.push(Command::Interact(ray_hit.entity));
        }
    } else if let Some(object) = right_hand.held_object {
        if let Some(mark) = held {
            if mark.can_release {
                commands.push(Command::RemoveHeld(object));
            }
        }
    }
    commands
}

/// The part of a device that the player aims at: the first of its
/// `children` that carries a mesh (is among `meshes`).
pub fn first_mesh_child(children: &Vec<EntityId>, meshes: &EntitySet) -> (handle: Option<EntityId>)
    ensures
        handle == head_of(children@.filter(member_of(meshes@))),
{
    let with_mesh = meshes.members_among(children);
    if with_mesh.len() > 0 {
        Some(with_mesh[0])
    } else {
        None
    }
}

/// How a device answers the player.
#[derive(Clone, Copy, Debug, PartialEq, Eq, Structural)]
pub struct Handle {
    /// The part that the player aims at.
    pub entity: EntityId,
    /// How it can be used.
    pub interactable: Interactable,
}

/// The handle with the given use on the first mesh child, if there is
/// one.
pub open spec fn handle_spec(
    children: Seq<EntityId>,
    meshes: Seq<EntityId>,
    action: Interactions,
) -> Option<Handle> {
    match head_of(children.filter(member_of(meshes))) {
        Some(entity) => Some(Handle { entity, interactable: Interactable { primary_action: action } }),
        None => None,
    }
}

fn handle_on(
    children: &Vec<EntityId>,
    meshes: &EntitySet,
    action: Interactions,
) -> (handle: Option<Handle>)
    ensures
        handle == handle_spec(children@, meshes@, action),
{
    match first_mesh_child(children, meshes) {
        Some(entity) => Some(Handle { entity, interactable: Interactable::new(action) }),
        None => None,
    }
}

/// Sets up a new big red button: its first mesh child can be pressed.
pub fn register_big_red_button_interaction(
    children: &Vec<EntityId>,
    meshes: &EntitySet,
) -> (handle: Option<Handle>)
    ensures
        handle == handle_spec(children@, meshes@, Interactions::Press),
{
    handle_on(children, meshes, Interactions::Press)
}

/// Sets up a new power button: its first mesh child can be pressed.
pub fn register_power_button_interaction(
    children: &Vec<EntityId>,
    meshes: &EntitySet,
) -> (handle: Option<Handle>)
    ensures
        handle == handle_spec(children@, meshes@, Interactions::Press),
{
    handle_on(children, meshes, Interactions::Press)
}

/// How a new weighted cube is set up.
#[derive(Clone, Copy, Debug, PartialEq, Eq)]
pub struct CubeSetup {
    /// The part by which the cube is picked up, if it has a mesh.
    pub handle: Option<Handle>,
    /// How the cube dissolves: it has no place to return to.
    pub dissolveable: Dissolveable,
}

/// Sets up a new weighted cube: its first collider with a mesh can be
/// picked up, and a gate removes the cube for good.
pub fn register_weighted_cube_interaction(
    colliders: &Vec<EntityId>,
    meshes: &EntitySet,
) -> (setup: CubeSetup)
    ensures
        setup.handle == handle_spec(colliders@, meshes@, Interactions::PickUp),
        setup.dissolveable == (Dissolveable { respawns: false }),
{
    CubeSetup {
        handle: handle_on(colliders, meshes, Interactions::PickUp),
        dissolveable: Dissolveable { respawns: false },
    }
}

/// How a new spitter is set up.
#[derive(Clone, Copy, Debug, PartialEq, Eq, Structural)]
pub enum SpitterSetup {
    /// The spitter is left alone: it has more than one child, or no
    /// child with a mesh.
    Skipped,
    /// The spitter is fixed in place and gets a body that never moves.
    Fixed,
    /// The spitter can be carried: its handle can be picked up, it gets
    /// a body that moves, and a gate sends it back to its place.
    Portable { handle: Handle, body: BodyKind, dissolveable: Dissolveable },
}

/// How a spitter with the given children is set up.
pub open spec fn spitter_setup_spec(
    children: Seq<EntityId>,
    meshes: Seq<EntityId>,
    is_immobile: bool,
) -> SpitterSetup {
    if children.len() > 1 {
        SpitterSetup::Skipped
    } else {
        match handle_spec(children, meshes, Interactions::PickUp) {
            Some(handle) => if is_immobile {
                SpitterSetup::Fixed
            } else {
                SpitterSetup::Portable {
                    handle,
                    body: BodyKind::Dynamic,
                    dissolveable: Dissolveable { respawns: true },
                }
            },
            None => SpitterSetup::Skipped,
        }
    }
}

/// Sets up a new signal spitter with the given `children`.
///
/// A spitter may have one child only; one with more is skipped, and so is
/// one without a mesh. A spitter that is fixed in place (`is_immobile`)
/// gets a body that never moves. Any other can be picked up by its mesh
/// child, gets a body that moves, and returns to its place when a gate
/// dissolves it.
pub fn register_signal_spitter_interaction(
    children: &Vec<EntityId>,
    meshes: &EntitySet,
    is_immobile: bool,
) -> (setup: SpitterSetup)
    ensures
        setup == spitter_setup_spec(children@, meshes@, is_immobile),
{
    if children.len() > 1 {
        return SpitterSetup::Skipped;
    }
    match handle_on(children, meshes, Interactions::PickUp) {
        Some(handle) => if is_immobile {
            SpitterSetup::Fixed
        } else {
            SpitterSetup::Portable {
                handle,
                body: BodyKind::Dynamic,
                dissolveable: Dissolveable { respawns: true },
            }
        },
        None => SpitterSetup::Skipped,
    }
}

/// Sets up a new standing cube spitter with the given `children`, by the
/// rules of [`register_signal_spitter_interaction`].
pub fn register_standing_cube_spitter_interaction(
    children: &Vec<EntityId>,
    meshes: &EntitySet,
    is_immobile: bool,
) -> (setup: SpitterSetup)
    ensures
        setup == spitter_setup_spec(children@, meshes@, is_immobile),
{
    register_signal_spitter_interaction(children, meshes, is_immobile)
}

} // verus!
