//! What the player holds.

use crate::command::Command;
use crate::entity_set::{member_of, EntityId, EntitySet};
use vstd::prelude::*;

verus! {

/// The player's hand: it holds one object or none.
#[derive(Clone, Copy, Debug, PartialEq, Eq)]
pub struct RightHand {
    /// The object in the hand.
    pub held_object: Option<EntityId>,
}

/// Marks an object that the player holds.
#[derive(Clone, Copy, Debug, PartialEq, Eq, Structural)]
pub struct Held {
    /// Whether the object may be put down where it is now.
    pub can_release: bool,
}

impl RightHand {
    /// An empty hand.
    pub fn new() -> (hand: RightHand)
        ensures
            hand.held_object.is_none(),
    {
        RightHand { held_object: None }
    }

    /// Answers the use of an object that can be picked up. `body` is the
    /// body of the part that was used. An empty hand takes the body; a
    /// full hand, or a part without a body, changes nothing.
    pub fn pick_up(&mut self, body: Option<EntityId>) -> (commands: Vec<Command>)
        ensures
            final(self).held_object == if old(self).held_object.is_none() {
                body
            } else {
                old(self).held_object
            },
            commands@ == match body {
                Some(picked) => if old(self).held_object.is_none() {
                    seq![Command::InsertHeld(picked)]
                } else {
                    Seq::empty()
                },
                None => Seq::empty(),
            },
    {
        let mut commands: Vec<Command> = Vec::new();
        if let Some(picked) = body {
            if self.held_object.is_none() {
                self.held_object = Some(picked);
                commands.push(Command::InsertHeld(picked));
            }
        }
        commands
    }

    /// Answers an object getting its held mark: `body` is in the hand
    /// from now on, whatever was there, and its physics is switched off.
    pub fn picked_up_item(&mut self, body: EntityId) -> (commands: Vec<Command>)
        ensures
            final(self).held_object == Some(body),
            commands@ == seq![Command::DisableBody(body)],
    {
        self.held_object = Some(body);
        let mut commands: Vec<Command> = Vec::new();
        commands.push(Command::DisableBody(body));
        commands
    }

    /// Records that the held object was let go: the hand is empty, and
    /// the physics of the object `released` is switched back on.
    pub fn released_item(&mut self, released: EntityId) -> (commands: Vec<Command>)
        ensures
            final(self).held_object.is_none(),
            commands@ == seq![Command::EnableBody(released)],
    {
        self.held_object = None;
        let mut commands: Vec<Command> = Vec::new();
        commands.push(Command::EnableBody(released));
        commands
    }
}

/// Whether an object may be put down on what lies ahead: only on a
/// surface (`Some`), and only on one that is flat.
pub open spec fn placeable(surface_is_flat: Option<bool>) -> bool {
    surface_is_flat == Some(true)
}

/// The mark that shows whether the held object may be put down.
pub open spec fn placement_mark(allowed: bool) -> spec_fn(EntityId) -> Command {
    |e: EntityId|
        if allowed {
            Command::MarkPlaceable(e)
        } else {
            Command::MarkUnplaceable(e)
        }
}

impl Held {
    /// The mark of an object that has just been picked up: it may not be
    /// put down before a place for it was found.
    pub fn new() -> (held: Held)
        ensures
            !held.can_release,
    {
        Held { can_release: false }
    }

    /// Judges the place where the held object is shown.
    ///
    /// `surface_is_flat` tells what the object would come to rest on:
    /// nothing within reach (`None`), or a surface that is flat or is
    /// not. The object may be put down on a flat surface only. Each of
    /// its `colliders` that has a material (is among `with_material`) is
    /// marked to show it.
    pub fn project_held_placable_item(
        &mut self,
        surface_is_flat: Option<bool>,
        colliders: &Vec<EntityId>,
        with_material: &EntitySet,
    ) -> (commands: Vec<Command>)
        ensures
            final(self).can_release == placeable(surface_is_flat),
            commands@ == colliders@.filter(member_of(with_material@)).map_values(
                placement_mark(placeable(surface_is_flat)),
            ),
    {
        let allowed = match surface_is_flat {
            Some(flat) => flat,
            None => false,
        };
        self.can_release = allowed;
        let lit = with_material.members_among(colliders);
        let ghost mark = placement_mark(allowed);
        let mut commands: Vec<Command> = Vec::new();
        let mut i: usize = 0;
        while i < lit.len()
            invariant
                i <= lit@.len(),
                mark == placement_mark(allowed),
                commands@ == lit@.take(i as int).map_values(mark),
            decreases lit.len() - i,
        {
            if allowed {
                commands.push(Command::MarkPlaceable(lit[i]));
            } else {
                commands.push(Command::MarkUnplaceable(lit[i]));
            }
            i += 1;
            proof {
                assert(commands@ =~= lit@.take(i as int).map_values(mark));
            }
        }
        proof {
            assert(lit@.take(i as int) =~= lit@);
        }
        commands
    }
}

} // verus!
