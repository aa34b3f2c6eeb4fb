//! What the rules ask the engine to do.

use crate::entity_set::EntityId;
use vstd::prelude::*;

verus! {

/// One request to the engine. The rules never touch the world themselves:
/// they return the requests, in the order in which they are to be carried
/// out.
#[derive(Clone, Copy, Debug, PartialEq, Eq)]
pub enum Command {
    /// Mark the entity as powered.
    InsertPowered(EntityId),
    /// Take the power mark from the entity.
    RemovePowered(EntityId),
    /// Record that `entity` draws its power from `source`.
    InsertPoweredBy { entity: EntityId, source: EntityId },
    /// Forget where the entity draws its power from.
    RemovePoweredBy(EntityId),
    /// Start the entity's power timer over, with the given duration.
    InsertPoweredTimer { entity: EntityId, duration_ns: u64 },
    /// Drop the entity's power timer.
    RemovePoweredTimer(EntityId),
    /// Start the discharge cooldown of a cube.
    InsertCubeDischarge(EntityId),
    /// End the discharge cooldown of a cube.
    RemoveCubeDischarge(EntityId),
    /// Mark a cube as powering up.
    InsertPoweringUp(EntityId),
    /// Take the powering-up mark from a cube.
    RemovePoweringUp(EntityId),
    /// Deliver a direct signal to the entity.
    SendDirectSignal(EntityId),
    /// Deliver a direct signal to `target` once `delay_ns` have passed.
    SendDelayedSignal { target: EntityId, delay_ns: u64 },
    /// Remove the entity from the world.
    Despawn(EntityId),
    /// Mark the entity as gone for good, then remove it from the world.
    Entomb(EntityId),
    /// Put the entity back where it first stood.
    Respawn(EntityId),
    /// Take the entity out of the player's hand.
    RemoveHeld(EntityId),
    /// Put the entity into the player's hand.
    InsertHeld(EntityId),
    /// Let a spitter throw a new cube, which starts `lift` units above
    /// the spitter.
    SpawnCube { spitter: EntityId, lift: u32 },
    /// Queue a signal that the spitter emits after `delay_ms`.
    QueueSignal { spitter: EntityId, delay_ms: u32, size: u32 },
    /// Tell an interactable entity that the player used it.
    Interact(EntityId),
    /// Tint the entity to show that a signal would reach it.
    Highlight(EntityId),
    /// Take the tint from the entity.
    Unhighlight(EntityId),
    /// Show that the held object may be put down where it is.
    MarkPlaceable(EntityId),
    /// Show that the held object may not be put down where it is.
    MarkUnplaceable(EntityId),
    /// Let the material of the entity flare up at once and fade out,
    /// tinted, to its resting intensity.
    FlareOut(EntityId),
    /// Let a door slide up from where it is.
    OpenDoor(EntityId),
    /// Let a door slide back down from where it is.
    CloseDoor(EntityId),
    /// Let the material of the entity glow up to full intensity.
    GlowUp(EntityId),
    /// Let the material of the entity fade to its resting intensity.
    GlowDown(EntityId),
    /// Let the material of the entity flash: up to full intensity and back.
    Flash(EntityId),
    /// Let a part of a plate sink under a load.
    SinkPlate(EntityId),
    /// Let a part of a plate come back up.
    RaisePlate(EntityId),
    /// Give the entity a physics body of the given kind.
    InsertBody { entity: EntityId, kind: BodyKind },
    /// Take the pending-body mark from the entity.
    RemoveNeedsBody(EntityId),
    /// Switch the physics of the entity off.
    DisableBody(EntityId),
    /// Switch the physics of the entity back on.
    EnableBody(EntityId),
}

/// How the physics engine moves a body.
#[derive(Clone, Copy, Debug, PartialEq, Eq, Structural)]
pub enum BodyKind {
    /// Moved by forces and collisions.
    Dynamic,
    /// Never moves.
    Static,
    /// Moved by the game only.
    Kinematic,
}

} // verus!
