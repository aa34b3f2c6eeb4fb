//! Far from the player the physics rests.

use crate::command::Command;
use crate::entity_set::EntityId;
use vstd::prelude::*;

verus! {

/// What the distance to the player asks of a body.
pub open spec fn body_distance_spec(
    entity: EntityId,
    is_disabled: bool,
    within_range: bool,
    beyond_margin: bool,
) -> Seq<Command> {
    if is_disabled && within_range {
        seq![Command::EnableBody(entity)]
    } else if !is_disabled && !within_range && beyond_margin {
        seq![Command::DisableBody(entity)]
    } else {
        Seq::empty()
    }
}

/// Switches the physics of the body `entity` off and on by its distance
/// to the player.
///
/// `within_range` says that the body is no farther than the range,
/// `beyond_margin` that it is farther than the range and its margin. A
/// body at rest (`is_disabled`) wakes within the range; a body that is
/// awake rests beyond the margin. Between the two nothing changes, so a
/// body at the edge does not flicker.
pub fn rigid_body_distance_system(
    entity: EntityId,
    is_disabled: bool,
    within_range: bool,
    beyond_margin: bool,
) -> (commands: Vec<Command>)
    ensures
        commands@ == body_distance_spec(entity, is_disabled, within_range, beyond_margin),
{
    let mut commands: Vec<Command> = Vec::new();
    if is_disabled && within_range {
        commands.push(Command::EnableBody(entity));
    } else if !is_disabled && !within_range && beyond_margin {
        commands.push(Command::DisableBody(entity));
    }
    commands
}

/// What the distance to the player asks of a collider.
#[derive(Clone, Copy, Debug, PartialEq, Eq, Structural)]
pub enum LayerChange {
    /// The collider gets back the layers it had.
    Restore,
    /// The collider loses its layers, which are kept for later.
    Disable,
    /// Nothing changes.
    Keep,
}

/// What the distance to the player asks of a collider.
pub open spec fn layer_change_spec(
    disabled_by_distance: bool,
    within_range: bool,
    beyond_margin: bool,
    exempt: bool,
) -> LayerChange {
    if within_range && disabled_by_distance {
        LayerChange::Restore
    } else if beyond_margin && !disabled_by_distance && !exempt {
        LayerChange::Disable
    } else {
        LayerChange::Keep
    }
}

/// Takes the collision layers from a collider far from the player and
/// gives them back when the player is near.
///
/// `within_range` says that the collider is no farther than the range,
/// `beyond_margin` that it is farther than the range and its margin. A
/// collider that lost its layers to the distance (`disabled_by_distance`)
/// gets them back within the range. A collider beyond the margin loses
/// them, unless it is `exempt`: one whose layers are none at all or the
/// plain default is left alone.
pub fn collider_distance_system(
    disabled_by_distance: bool,
    within_range: bool,
    beyond_margin: bool,
    exempt: bool,
) -> (change: LayerChange)
    ensures
        change == layer_change_spec(disabled_by_distance, within_range, beyond_margin, exempt),
{
    if within_range && disabled_by_distance {
        LayerChange::Restore
    } else if beyond_margin && !disabled_by_distance && !exempt {
        LayerChange::Disable
    } else {
        LayerChange::Keep
    }
}

} // verus!
