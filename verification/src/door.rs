//! Doors and the poles that power them.
//!
//! A door opens while enough of its poles are powered. A pole that gets a
//! signal is powered for a short time.

use crate::command::Command;
use crate::entity_set::{member_of, EntityId, EntitySet};
use crate::glow::{restart_glow, restart_spec, Glow, Part};
use crate::hierarchy::{sibling_test, siblings_where};
use crate::timer::{Countdown, NANOS_PER_SEC};
use vstd::prelude::*;

verus! {

/// For how long a signal powers a pole, in seconds.
pub const DOOR_POLE_POWER_DURATION_SEC: u64 = 2;

/// How far a door slides up when it opens, in world units.
pub const DOOR_LIFT_HEIGHT: u32 = 20;

/// Names the door that a pole powers.
#[derive(Clone, Copy, Debug, PartialEq, Eq, Structural)]
pub struct PowersDoor(pub EntityId);

/// Counts down the time for which a signal keeps an entity powered.
#[derive(Clone, Copy, Debug, PartialEq, Eq, Structural)]
pub struct PoweredTimer(pub Countdown);

/// The poles of a new door: those of its `siblings` that are in `poles`.
/// Each of them powers this door.
pub fn register_doors(
    door_entity: EntityId,
    siblings: &Vec<EntityId>,
    poles: &EntitySet,
) -> (found: Vec<EntityId>)
    ensures
        found@ == siblings@.filter(sibling_test(door_entity, poles@, true)),
{
    siblings_where(door_entity, siblings, poles, true)
}

/// The commands that power a pole for a while.
pub open spec fn pole_signal_spec(target: EntityId, is_pole: bool) -> Seq<Command> {
    if is_pole {
        seq![
            Command::InsertPowered(target),
            Command::InsertPoweredTimer {
                entity: target,
                duration_ns: (DOOR_POLE_POWER_DURATION_SEC * NANOS_PER_SEC) as u64,
            },
        ]
    } else {
        Seq::empty()
    }
}

/// Answers a direct signal to `target`: a pole (one of `poles`) is powered
/// and its power timer starts over.
pub fn door_pole_direct_signal(target: EntityId, poles: &EntitySet) -> (commands: Vec<Command>)
    ensures
        commands@ == pole_signal_spec(target, poles@.contains(target)),
{
    let mut commands: Vec<Command> = Vec::new();
    if poles.contains(target) {
        commands.push(Command::InsertPowered(target));
        commands.push(
            Command::InsertPoweredTimer {
                entity: target,
                duration_ns: DOOR_POLE_POWER_DURATION_SEC * NANOS_PER_SEC,
            },
        );
    }
    commands
}

/// The test "powers `door`".
pub open spec fn powers(door: EntityId) -> spec_fn(PowersDoor) -> bool {
    |p: PowersDoor| p.0 == door
}

/// How many of the powered poles power `door`.
pub open spec fn powered_poles_of(door: EntityId, powered_poles: Seq<PowersDoor>) -> nat {
    powered_poles.filter(powers(door)).len()
}

/// Counts the powered poles that power `door_entity`. `powered_poles`
/// holds, for each pole that is powered now, the door it powers.
pub fn count_powered_poles_for_door(
    door_entity: EntityId,
    powered_poles: &Vec<PowersDoor>,
) -> (count: usize)
    ensures
        count == powered_poles_of(door_entity, powered_poles@),
{
    let ghost test = powers(door_entity);
    let mut count: usize = 0;
    let mut i: usize = 0;
    proof {
        powered_poles@.take(0).lemma_filter_len(test);
    }
    while i < powered_poles.len()
        invariant
            i <= powered_poles@.len(),
            test == powers(door_entity),
            count == powered_poles@.take(i as int).filter(test).len(),
            count <= i,
        decreases powered_poles.len() - i,
    {
        let pole = powered_poles[i];
        proof {
            let upto = powered_poles@.take(i as int);
            assert(powered_poles@.take(i + 1) =~= upto.push(pole));
            upto.lemma_filter_push(pole, test);
        }
        if pole.0 == door_entity {
            count += 1;
        }
        i += 1;
    }
    proof {
        assert(powered_poles@.take(i as int) =~= powered_poles@);
    }
    count
}

/// How many powered poles a door needs: one, and as many more as its
/// extra requirement says.
pub open spec fn required_poles(extra: Option<u32>) -> nat {
    match extra {
        Some(amount) => (amount + 1) as nat,
        None => 1,
    }
}

/// What a door is told to do.
#[derive(Clone, Copy, Debug, PartialEq, Eq, Structural)]
pub enum DoorMotion {
    /// Slide up.
    Open,
    /// Slide down.
    Close,
    /// Stay as it is.
    Stay,
}

/// What a door that has `powered_count` powered poles does.
pub open spec fn door_motion_spec(powered_count: nat, extra: Option<u32>, is_open: bool) -> DoorMotion {
    let should_be_open = powered_count >= required_poles(extra);
    if should_be_open && !is_open {
        DoorMotion::Open
    } else if !should_be_open && is_open {
        DoorMotion::Close
    } else {
        DoorMotion::Stay
    }
}

/// Decides what a door does: it opens when it has enough powered poles
/// and is not open, closes when it has too few and is open, and stays
/// otherwise.
pub fn door_motion(powered_count: usize, extra: Option<u32>, is_open: bool) -> (motion: DoorMotion)
    ensures
        motion == door_motion_spec(powered_count as nat, extra, is_open),
{
    let should_be_open = match extra {
        Some(amount) => powered_count > amount as usize,
        None => powered_count >= 1,
    };
    if should_be_open && !is_open {
        DoorMotion::Open
    } else if !should_be_open && is_open {
        DoorMotion::Close
    } else {
        DoorMotion::Stay
    }
}

/// A door that opens with some poles powered opens with more, and one
/// that closes with some closes with fewer.
pub proof fn lemma_power_is_monotone(fewer: nat, more: nat, extra: Option<u32>, is_open: bool)
    requires
        fewer <= more,
    ensures
        door_motion_spec(fewer, extra, is_open) == DoorMotion::Open ==> door_motion_spec(
            more,
            extra,
            is_open,
        ) == DoorMotion::Open,
        door_motion_spec(more, extra, is_open) == DoorMotion::Close ==> door_motion_spec(
            fewer,
            extra,
            is_open,
        ) == DoorMotion::Close,
{
}

/// A door never opens without a powered pole, whatever its extra
/// requirement.
pub proof fn lemma_no_power_no_opening(extra: Option<u32>, is_open: bool)
    ensures
        door_motion_spec(0, extra, is_open) != DoorMotion::Open,
{
}

/// Once a door has done what it was told, it is left alone for as long
/// as its poles stay as they are.
pub proof fn lemma_door_settles(powered_count: nat, extra: Option<u32>, is_open: bool)
    ensures
        door_motion_spec(powered_count, extra, is_open) == DoorMotion::Open ==> door_motion_spec(
            powered_count,
            extra,
            true,
        ) == DoorMotion::Stay,
        door_motion_spec(powered_count, extra, is_open) == DoorMotion::Close ==> door_motion_spec(
            powered_count,
            extra,
            false,
        ) == DoorMotion::Stay,
{
}

/// The commands that set a door in motion: its running animations stop,
/// then the new one starts. A door that stays gets none.
pub open spec fn door_commands_spec(
    door: EntityId,
    children: Seq<EntityId>,
    animations: Seq<EntityId>,
    motion: DoorMotion,
) -> Seq<Command> {
    let stopped = children.filter(member_of(animations)).map_values(
        |e: EntityId| Command::Despawn(e),
    );
    match motion {
        DoorMotion::Open => stopped.push(Command::OpenDoor(door)),
        DoorMotion::Close => stopped.push(Command::CloseDoor(door)),
        DoorMotion::Stay => Seq::empty(),
    }
}

/// Checks one door against its poles and sets it in motion.
///
/// `powered_poles` holds, for each powered pole, the door it powers;
/// `extra` is the door's extra requirement, if it has one; `is_open`
/// says whether the door stands above its resting place. `door_children`
/// are the children of the door, and `animations` the running
/// animations.
pub fn check_door_power_requirements(
    door_entity: EntityId,
    door_children: &Vec<EntityId>,
    extra: Option<u32>,
    is_open: bool,
    powered_poles: &Vec<PowersDoor>,
    animations: &EntitySet,
) -> (commands: Vec<Command>)
    ensures
        commands@ == door_commands_spec(
            door_entity,
            door_children@,
            animations@,
            door_motion_spec(powered_poles_of(door_entity, powered_poles@), extra, is_open),
        ),
{
    let powered_count = count_powered_poles_for_door(door_entity, powered_poles);
    let motion = door_motion(powered_count, extra, is_open);
    let mut commands: Vec<Command> = Vec::new();
    match motion {
        DoorMotion::Stay => {},
        _ => {
            let running = animations.members_among(door_children);
            let mut i: usize = 0;
            while i < running.len()
                invariant
                    i <= running@.len(),
                    commands@ == running@.take(i as int).map_values(
                        |e: EntityId| Command::Despawn(e),
                    ),
                decreases running.len() - i,
            {
                commands.push(Command::Despawn(running[i]));
                i += 1;
                proof {
                    assert(commands@ =~= running@.take(i as int).map_values(
                        |e: EntityId| Command::Despawn(e),
                    ));
                }
            }
            proof {
                assert(running@.take(i as int) =~= running@);
            }
            match motion {
                DoorMotion::Open => commands.push(Command::OpenDoor(door_entity)),
                _ => commands.push(Command::CloseDoor(door_entity)),
            }
        },
    }
    commands
}

/// Answers a pole gaining power: its parts glow up. An entity that is no
/// pole gets nothing.
pub fn on_power_added(
    entity: EntityId,
    poles: &EntitySet,
    pole_parts: &Vec<Part>,
    animations: &EntitySet,
) -> (commands: Vec<Command>)
    ensures
        commands@ == if poles@.contains(entity) {
            restart_spec(pole_parts@, animations@, Glow::Up)
        } else {
            Seq::empty()
        },
{
    if poles.contains(entity) {
        restart_glow(pole_parts, animations, Glow::Up)
    } else {
        Vec::new()
    }
}

/// Answers a pole losing power: its parts fade. An entity that is no pole
/// gets nothing.
pub fn on_power_removed(
    entity: EntityId,
    poles: &EntitySet,
    pole_parts: &Vec<Part>,
    animations: &EntitySet,
) -> (commands: Vec<Command>)
    ensures
        commands@ == if poles@.contains(entity) {
            restart_spec(pole_parts@, animations@, Glow::Down)
        } else {
            Seq::empty()
        },
{
    if poles.contains(entity) {
        restart_glow(pole_parts, animations, Glow::Down)
    } else {
        Vec::new()
    }
}

/// The commands that follow when the power timer of `entity` runs out.
/// The entity keeps its power only if it draws it from a charge pad that
/// is itself powered for good.
pub open spec fn timer_expired_spec(
    entity: EntityId,
    powered_by: Option<EntityId>,
    steady_charge_pads: Seq<EntityId>,
) -> Seq<Command> {
    let stays = match powered_by {
        Some(source) => steady_charge_pads.contains(source),
        None => false,
    };
    if stays {
        seq![Command::RemovePoweredTimer(entity)]
    } else {
        seq![Command::RemovePowered(entity), Command::RemovePoweredTimer(entity)]
    }
}

impl PoweredTimer {
    /// The timer that a signal starts on a pole.
    pub fn for_pole() -> (timer: PoweredTimer)
        ensures
            timer.0 == (Countdown {
                elapsed_ns: 0,
                duration_ns: (DOOR_POLE_POWER_DURATION_SEC * NANOS_PER_SEC) as u64,
                finished: false,
            }),
            timer.0.wf(),
    {
        PoweredTimer(Countdown::new(DOOR_POLE_POWER_DURATION_SEC * NANOS_PER_SEC))
    }

    /// Lets `delta_ns` pass on the power timer of `entity`.
    ///
    /// While the timer runs nothing happens. Once it has run out the timer
    /// is dropped, and with it the power of the entity, unless the entity
    /// draws its power (`powered_by`) from one of `steady_charge_pads`:
    /// the charge pads that are powered and have no timer of their own.
    pub fn update_powered_timers(
        &mut self,
        entity: EntityId,
        delta_ns: u64,
        powered_by: Option<EntityId>,
        steady_charge_pads: &EntitySet,
    ) -> (commands: Vec<Command>)
        ensures
            final(self).0 == old(self).0.after_tick(delta_ns),
            old(self).0.wf() ==> final(self).0.wf(),
            commands@ == if final(self).0.finished {
                timer_expired_spec(entity, powered_by, steady_charge_pads@)
            } else {
                Seq::empty()
            },
    {
        let mut commands: Vec<Command> = Vec::new();
        self.0.tick(delta_ns);
        if self.0.finished() {
            let should_stay_powered = match powered_by {
                Some(source) => steady_charge_pads.contains(source),
                None => false,
            };
            if !should_stay_powered {
                commands.push(Command::RemovePowered(entity));
            }
            commands.push(Command::RemovePoweredTimer(entity));
        }
        commands
    }
}

} // verus!
