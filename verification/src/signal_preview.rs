//! The preview of a held signal spitter: the devices its signal would
//! reach are tinted.

use crate::command::Command;
use crate::entity_set::{distinct, without, EntityId, EntitySet};
use crate::player::{Held, RightHand};
use vstd::prelude::*;

verus! {

/// Thickness of the shape that is cast along the path of a signal.
pub const SIGNAL_SHAPE_DEPTH: u32 = 2;

/// What a spitter has tinted.
pub struct SignalPreview {
    /// The entities that are tinted now.
    pub highlighted_entities: EntitySet,
}

/// What the physics engine found along the path of the signal.
pub struct ShapeCast {
    /// The first entity in the path.
    pub hit: EntityId,
    /// The entities that touch the signal where it hits.
    pub at_hit: Vec<EntityId>,
    /// The entities that touch the signal a little beside that.
    pub nearby: Vec<EntityId>,
}

/// The entities that a cast reaches: the one that was hit, then those
/// around it, each once.
pub open spec fn reached(cast: Option<ShapeCast>) -> Seq<EntityId> {
    match cast {
        Some(found) => distinct(seq![found.hit] + found.at_hit@ + found.nearby@),
        None => Seq::empty(),
    }
}

/// The commands that change the tint from `before` to `now`: what is no
/// longer reached loses it, then what is newly reached gets it.
pub open spec fn retint_spec(before: Seq<EntityId>, now: Seq<EntityId>) -> Seq<Command> {
    without(before, now).map_values(|e: EntityId| Command::Unhighlight(e)) + without(
        now,
        before,
    ).map_values(|e: EntityId| Command::Highlight(e))
}

fn append_all(target: &mut Vec<EntityId>, source: &Vec<EntityId>)
    ensures
        final(target)@ == old(target)@ + source@,
{
    let mut i: usize = 0;
    proof {
        assert(target@ =~= old(target)@ + source@.take(0));
    }
    while i < source.len()
        invariant
            i <= source@.len(),
            target@ == old(target)@ + source@.take(i as int),
        decreases source.len() - i,
    {
        target.push(source[i]);
        i += 1;
        proof {
            assert(target@ =~= old(target)@ + source@.take(i as int));
        }
    }
    proof {
        assert(source@.take(i as int) =~= source@);
    }
}

fn push_each_unhighlight(commands: &mut Vec<Command>, entities: &Vec<EntityId>)
    ensures
        final(commands)@ == old(commands)@ + entities@.map_values(
            |e: EntityId| Command::Unhighlight(e),
        ),
{
    let ghost make = |e: EntityId| Command::Unhighlight(e);
    let mut i: usize = 0;
    proof {
        assert(commands@ =~= old(commands)@ + entities@.take(0).map_values(make));
    }
    while i < entities.len()
        invariant
            i <= entities@.len(),
            make == (|e: EntityId| Command::Unhighlight(e)),
            commands@ == old(commands)@ + entities@.take(i as int).map_values(make),
        decreases entities.len() - i,
    {
        commands.push(Command::Unhighlight(entities[i]));
        i += 1;
        proof {
            assert(commands@ =~= old(commands)@ + entities@.take(i as int).map_values(make));
        }
    }
    proof {
        assert(entities@.take(i as int) =~= entities@);
    }
}

fn push_each_highlight(commands: &mut Vec<Command>, entities: &Vec<EntityId>)
    ensures
        final(commands)@ == old(commands)@ + entities@.map_values(
            |e: EntityId| Command::Highlight(e),
        ),
{
    let ghost make = |e: EntityId| Command::Highlight(e);
    let mut i: usize = 0;
    proof {
        assert(commands@ =~= old(commands)@ + entities@.take(0).map_values(make));
    }
    while i < entities.len()
        invariant
            i <= entities@.len(),
            make == (|e: EntityId| Command::Highlight(e)),
            commands@ == old(commands)@ + entities@.take(i as int).map_values(make),
        decreases entities.len() - i,
    {
        commands.push(Command::Highlight(entities[i]));
        i += 1;
        proof {
            assert(commands@ =~= old(commands)@ + entities@.take(i as int).map_values(make));
        }
    }
    proof {
        assert(entities@.take(i as int) =~= entities@);
    }
}

impl SignalPreview {
    /// A preview that tints nothing.
    pub fn new() -> (preview: SignalPreview)
        ensures
            preview.highlighted_entities@ == Seq::<EntityId>::empty(),
    {
        SignalPreview { highlighted_entities: EntitySet::new() }
    }

    /// Brings the preview of the spitter `spitter_entity` up to date.
    ///
    /// Nothing changes unless the player holds this very spitter. If they
    /// do, the entities that `cast` reaches are tinted from now on: those
    /// that are no longer reached lose the tint, those newly reached get
    /// it.
    pub fn update_signal_preview(
        &mut self,
        spitter_entity: EntityId,
        right_hand: &RightHand,
        cast: Option<ShapeCast>,
    ) -> (commands: Vec<Command>)
        ensures
            final(self).highlighted_entities@ == if right_hand.held_object == Some(spitter_entity) {
                reached(cast)
            } else {
                old(self).highlighted_entities@
            },
            commands@ == if right_hand.held_object == Some(spitter_entity) {
                retint_spec(old(self).highlighted_entities@, reached(cast))
            } else {
                Seq::empty()
            },
    {
        let mut commands: Vec<Command> = Vec::new();
        let holds_it = match right_hand.held_object {
            Some(object) => object == spitter_entity,
            None => false,
        };
        if !holds_it {
            return commands;
        }
        let new_highlighted = match &cast {
            Some(found) => {
                let mut all: Vec<EntityId> = Vec::new();
                all.push(found.hit);
                append_all(&mut all, &found.at_hit);
                append_all(&mut all, &found.nearby);
                proof {
                    assert(all@ =~= seq![found.hit] + found.at_hit@ + found.nearby@);
                }
                EntitySet::from_vec(&all)
            },
            None => EntitySet::new(),
        };
        let gone = self.highlighted_entities.difference(&new_highlighted);
        let fresh = new_highlighted.difference(&self.highlighted_entities);
        push_each_unhighlight(&mut commands, &gone);
        push_each_highlight(&mut commands, &fresh);
        self.highlighted_entities = new_highlighted;
        commands
    }

    /// Takes the tint from everything.
    pub fn clear(&mut self) -> (commands: Vec<Command>)
        ensures
            final(self).highlighted_entities@ == Seq::<EntityId>::empty(),
            commands@ == old(self).highlighted_entities@.map_values(
                |e: EntityId| Command::Unhighlight(e),
            ),
    {
        let mut commands: Vec<Command> = Vec::new();
        let tinted = self.highlighted_entities.to_vec();
        push_each_unhighlight(&mut commands, &tinted);
        self.highlighted_entities.clear();
        commands
    }

    /// Answers the spitter leaving the player's hand: the tint goes from
    /// everything.
    pub fn cleanup_signal_preview_on_drop(&mut self) -> (commands: Vec<Command>)
        ensures
            final(self).highlighted_entities@ == Seq::<EntityId>::empty(),
            commands@ == old(self).highlighted_entities@.map_values(
                |e: EntityId| Command::Unhighlight(e),
            ),
    {
        self.clear()
    }

    /// Checks the held spitter's place: where it may not be put down,
    /// the tint goes from everything; where it may, nothing changes.
    pub fn cleanup_signal_preview_on_invalid_placement(
        &mut self,
        held: &Held,
    ) -> (commands: Vec<Command>)
        ensures
            held.can_release ==> final(self).highlighted_entities == old(self).highlighted_entities
                && commands@ == Seq::<Command>::empty(),
            !held.can_release ==> final(self).highlighted_entities@ == Seq::<EntityId>::empty()
                && commands@ == old(
                self,
            ).highlighted_entities@.map_values(|e: EntityId| Command::Unhighlight(e)),
    {
        if !held.can_release {
            self.clear()
        } else {
            Vec::new()
        }
    }
}

/// Sets up the preview of a new signal spitter.
pub fn initialize_signal_preview() -> (preview: SignalPreview)
    ensures
        preview.highlighted_entities@ == Seq::<EntityId>::empty(),
{
    SignalPreview::new()
}

} // verus!
