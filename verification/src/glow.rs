//! The glow of a device: how its parts light up and fade.

use crate::command::Command;
use crate::entity_set::{absent_from, member_of, EntityId, EntitySet};
use vstd::prelude::*;

verus! {

/// How a part changes its light.
#[derive(Clone, Copy, Debug, PartialEq, Eq, Structural)]
pub enum Glow {
    /// Up to full intensity.
    Up,
    /// Down to the resting intensity.
    Down,
    /// Up to full intensity and back.
    Flash,
}

/// One part of a device that can glow.
pub struct Part {
    /// The part.
    pub entity: EntityId,
    /// What hangs below the part in the scene tree; running animations
    /// are among these.
    pub children: Vec<EntityId>,
    /// Whether the part has a material that can glow.
    pub has_material: bool,
}

/// The command that starts `glow` on `entity`.
pub open spec fn glow_command(glow: Glow, entity: EntityId) -> Command {
    match glow {
        Glow::Up => Command::GlowUp(entity),
        Glow::Down => Command::GlowDown(entity),
        Glow::Flash => Command::Flash(entity),
    }
}

/// What one part contributes: each of its running animations is removed,
/// then the new glow starts if the part has a material.
pub open spec fn part_spec(part: Part, animations: Seq<EntityId>, glow: Glow) -> Seq<Command> {
    part.children@.filter(member_of(animations)).map_values(|e: EntityId| Command::Despawn(e)) + (
    if part.has_material {
        seq![glow_command(glow, part.entity)]
    } else {
        Seq::empty()
    })
}

/// What all parts contribute, part by part.
pub open spec fn restart_spec(
    parts: Seq<Part>,
    animations: Seq<EntityId>,
    glow: Glow,
) -> Seq<Command>
    decreases parts.len(),
{
    if parts.len() == 0 {
        Seq::empty()
    } else {
        restart_spec(parts.drop_last(), animations, glow) + part_spec(
            parts.last(),
            animations,
            glow,
        )
    }
}

/// Appends to `commands` what `part` contributes.
fn restart_part(commands: &mut Vec<Command>, part: &Part, animations: &EntitySet, glow: Glow)
    ensures
        final(commands)@ == old(commands)@ + part_spec(*part, animations@, glow),
{
    let ghost running = member_of(animations@);
    let ghost stop = |e: EntityId| Command::Despawn(e);
    let mut i: usize = 0;
    proof {
        part.children@.take(0).lemma_filter_len(running);
        assert(commands@ =~= old(commands)@ + part.children@.take(0).filter(running).map_values(
            stop,
        ));
    }
    while i < part.children.len()
        invariant
            i <= part.children@.len(),
            running == member_of(animations@),
            stop == (|e: EntityId| Command::Despawn(e)),
            commands@ == old(commands)@ + part.children@.take(i as int).filter(running).map_values(
                stop,
            ),
        decreases part.children.len() - i,
    {
        let child = part.children[i];
        proof {
            let upto = part.children@.take(i as int);
            assert(part.children@.take(i + 1) =~= upto.push(child));
            upto.lemma_filter_push(child, running);
            assert(upto.filter(running).push(child).map_values(stop) =~= upto.filter(
                running,
            ).map_values(stop).push(Command::Despawn(child)));
        }
        if animations.contains(child) {
            commands.push(Command::Despawn(child));
        }
        i += 1;
        proof {
            assert(commands@ =~= old(commands)@ + part.children@.take(i as int).filter(
                running,
            ).map_values(stop));
        }
    }
    proof {
        assert(part.children@.take(i as int) =~= part.children@);
    }
    if part.has_material {
        let command = match glow {
            Glow::Up => Command::GlowUp(part.entity),
            Glow::Down => Command::GlowDown(part.entity),
            Glow::Flash => Command::Flash(part.entity),
        };
        commands.push(command);
    }
    proof {
        assert(commands@ =~= old(commands)@ + part_spec(*part, animations@, glow));
    }
}

/// Appends to `commands` what changes the light of a device.
///
/// For each of `parts` in turn, every child of the part that is a running
/// animation (one of `animations`) is removed, and the part starts
/// `glow` if it has a material.
pub fn restart_glow_into(
    commands: &mut Vec<Command>,
    parts: &Vec<Part>,
    animations: &EntitySet,
    glow: Glow,
)
    ensures
        final(commands)@ == old(commands)@ + restart_spec(parts@, animations@, glow),
{
    let mut i: usize = 0;
    proof {
        assert(commands@ =~= old(commands)@ + restart_spec(parts@.take(0), animations@, glow));
    }
    while i < parts.len()
        invariant
            i <= parts@.len(),
            commands@ == old(commands)@ + restart_spec(parts@.take(i as int), animations@, glow),
        decreases parts.len() - i,
    {
        proof {
            assert(parts@.take(i + 1).drop_last() =~= parts@.take(i as int));
            assert(parts@.take(i + 1).last() == parts@[i as int]);
        }
        let ghost before = commands@;
        restart_part(commands, &parts[i], animations, glow);
        i += 1;
        proof {
            assert(commands@ =~= old(commands)@ + restart_spec(
                parts@.take(i as int),
                animations@,
                glow,
            ));
        }
    }
    proof {
        assert(parts@.take(i as int) =~= parts@);
    }
}

/// The commands that change the light of a device: see
/// [`restart_glow_into`].
pub fn restart_glow(
    parts: &Vec<Part>,
    animations: &EntitySet,
    glow: Glow,
) -> (commands: Vec<Command>)
    ensures
        commands@ == restart_spec(parts@, animations@, glow),
{
    let mut commands: Vec<Command> = Vec::new();
    restart_glow_into(&mut commands, parts, animations, glow);
    proof {
        assert(Seq::<Command>::empty() + restart_spec(parts@, animations@, glow) =~= restart_spec(
            parts@,
            animations@,
            glow,
        ));
    }
    commands
}

/// Clears up after an animation that has ended: each of the `children`
/// of its runner is removed, but for those that are `colliders`.
pub fn despawn_tween_on_finish(
    children: &Vec<EntityId>,
    colliders: &EntitySet,
) -> (commands: Vec<Command>)
    ensures
        commands@ == children@.filter(absent_from(colliders@)).map_values(
            |e: EntityId| Command::Despawn(e),
        ),
{
    let ghost plain = absent_from(colliders@);
    let ghost remove = |e: EntityId| Command::Despawn(e);
    let mut commands: Vec<Command> = Vec::new();
    let mut i: usize = 0;
    proof {
        children@.take(0).lemma_filter_len(plain);
        assert(commands@ =~= children@.take(0).filter(plain).map_values(remove));
    }
    while i < children.len()
        invariant
            i <= children@.len(),
            plain == absent_from(colliders@),
            remove == (|e: EntityId| Command::Despawn(e)),
            commands@ == children@.take(i as int).filter(plain).map_values(remove),
        decreases children.len() - i,
    {
        let child = children[i];
        proof {
            let upto = children@.take(i as int);
            assert(children@.take(i + 1) =~= upto.push(child));
            upto.lemma_filter_push(child, plain);
            assert(upto.filter(plain).push(child).map_values(remove) =~= upto.filter(
                plain,
            ).map_values(remove).push(Command::Despawn(child)));
        }
        if !colliders.contains(child) {
            commands.push(Command::Despawn(child));
        }
        i += 1;
    }
    proof {
        assert(children@.take(i as int) =~= children@);
    }
    commands
}

} // verus!
