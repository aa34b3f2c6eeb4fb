//! Weighted cubes: they store power, hand it to devices nearby, and need
//! a moment before they can be charged again.

use crate::command::Command;
use crate::entity_set::{EntityId, EntitySet};
use crate::glow::{restart_glow_into, restart_spec, Glow, Part};
use crate::pressure_plate::Contact;
use crate::timer::{Countdown, NANOS_PER_SEC};
use vstd::prelude::*;

verus! {

/// How long a device takes to glow up or fade, in seconds.
pub const POWER_ANIMATION_DURATION_SEC: u64 = 1;

/// How close a device has to be for a cube to discharge into it, in
/// world units.
pub const CUBE_DISCHARGE_RADIUS: u32 = 20;

/// The cooldown of a cube that has just discharged.
#[derive(Clone, Copy, Debug, PartialEq, Eq, Structural)]
pub struct CubeDischarge {
    /// Counts down to the end of the cooldown.
    pub timer: Countdown,
}

/// The time a cube takes to power up; it does not discharge meanwhile.
#[derive(Clone, Copy, Debug, PartialEq, Eq, Structural)]
pub struct PoweringUp {
    /// Counts down to the end of the powering up.
    pub timer: Countdown,
}

/// The countdown of one power animation.
pub open spec fn animation_countdown() -> Countdown {
    Countdown {
        elapsed_ns: 0,
        duration_ns: (POWER_ANIMATION_DURATION_SEC * NANOS_PER_SEC) as u64,
        finished: false,
    }
}

/// The entity that a contact stands for: its body, or the collider itself
/// where it has no body.
pub open spec fn target_of(contact: Contact) -> EntityId {
    match contact.body {
        Some(body) => body,
        None => contact.collider,
    }
}

/// The device that the cube `cube` discharges into through a contact, if
/// any: not the cube itself, and nothing that is cooling down, powered
/// already, or inert.
pub open spec fn discharge_target(
    cube: EntityId,
    discharging: Seq<EntityId>,
    powered: Seq<EntityId>,
    inert: Seq<EntityId>,
) -> spec_fn(Contact) -> Option<EntityId> {
    |c: Contact|
        {
            let target = target_of(c);
            if c.collider == cube || target == cube || discharging.contains(target)
                || powered.contains(target) || inert.contains(target) {
                None
            } else {
                Some(target)
            }
        }
}

/// A cube discharges only into devices that can take the power: never
/// into itself, and never into one that is cooling down, powered or
/// inert.
pub proof fn lemma_discharge_targets(
    cube: EntityId,
    overlapping: Seq<Contact>,
    discharging: Seq<EntityId>,
    powered: Seq<EntityId>,
    inert: Seq<EntityId>,
    target: EntityId,
)
    requires
        overlapping.filter_map(discharge_target(cube, discharging, powered, inert)).contains(
            target,
        ),
    ensures
        target != cube,
        !discharging.contains(target),
        !powered.contains(target),
        !inert.contains(target),
{
    overlapping.lemma_filter_map_contains(
        discharge_target(cube, discharging, powered, inert),
        target,
    );
}

/// The commands of one discharge: a direct signal to each device in
/// `targets`, and, if there is any, the cube loses its power and starts to
/// cool down.
pub open spec fn discharge_spec(cube: EntityId, targets: Seq<EntityId>) -> Seq<Command> {
    targets.map_values(|t: EntityId| Command::SendDirectSignal(t)) + (if targets.len() > 0 {
        seq![Command::RemovePowered(cube), Command::InsertCubeDischarge(cube)]
    } else {
        Seq::empty()
    })
}

/// Lets the powered cube `cube_entity` discharge into the devices around
/// it.
///
/// `overlapping` is what the physics engine found within the discharge
/// radius of the cube. Each contact that stands for a device other than
/// the cube which is not cooling down (`discharging`), not powered
/// (`powered`) and not inert (`inert`) gets a direct signal. If any did,
/// the cube loses its power and starts to cool down.
pub fn cube_discharge_detection(
    cube_entity: EntityId,
    overlapping: &Vec<Contact>,
    discharging: &EntitySet,
    powered: &EntitySet,
    inert: &EntitySet,
) -> (commands: Vec<Command>)
    ensures
        commands@ == discharge_spec(
            cube_entity,
            overlapping@.filter_map(
                discharge_target(cube_entity, discharging@, powered@, inert@),
            ),
        ),
{
    let ghost pick = discharge_target(cube_entity, discharging@, powered@, inert@);
    let ghost signal = |t: EntityId| Command::SendDirectSignal(t);
    let mut commands: Vec<Command> = Vec::new();
    let mut any_discharged = false;
    let mut i: usize = 0;
    proof {
        assert(commands@ =~= overlapping@.take(0).filter_map(pick).map_values(signal));
    }
    while i < overlapping.len()
        invariant
            i <= overlapping@.len(),
            pick == discharge_target(cube_entity, discharging@, powered@, inert@),
            signal == (|t: EntityId| Command::SendDirectSignal(t)),
            commands@ == overlapping@.take(i as int).filter_map(pick).map_values(signal),
            any_discharged == (overlapping@.take(i as int).filter_map(pick).len() > 0),
        decreases overlapping.len() - i,
    {
        let contact = overlapping[i];
        proof {
            overlapping@.lemma_filter_map_take_succ(pick, i as int);
        }
        let target = match contact.body {
            Some(body) => body,
            None => contact.collider,
        };
        if !(contact.collider == cube_entity || target == cube_entity || discharging.contains(
            target,
        ) || powered.contains(target) || inert.contains(target)) {
            any_discharged = true;
            commands.push(Command::SendDirectSignal(target));
        }
        i += 1;
        proof {
            assert(commands@ =~= overlapping@.take(i as int).filter_map(pick).map_values(signal));
        }
    }
    proof {
        assert(overlapping@.take(i as int) =~= overlapping@);
    }
    if any_discharged {
        commands.push(Command::RemovePowered(cube_entity));
        commands.push(Command::InsertCubeDischarge(cube_entity));
    }
    proof {
        assert(commands@ =~= discharge_spec(cube_entity, overlapping@.filter_map(pick)));
    }
    commands
}

/// The commands that follow when `collider` touches a part of a cube
/// whose receiving entity is `receiver`.
pub open spec fn consume_spec(
    collider: EntityId,
    receiver: EntityId,
    signals: Seq<EntityId>,
    powered_untimed: Seq<EntityId>,
    discharging: Seq<EntityId>,
) -> Seq<Command> {
    if signals.contains(collider) && !powered_untimed.contains(receiver) && !discharging.contains(
        receiver,
    ) {
        seq![Command::SendDirectSignal(receiver), Command::Despawn(collider)]
    } else {
        Seq::empty()
    }
}

/// Handles the start of a collision between `collider` and the cube part
/// `target`, whose body is `target_body`.
///
/// A signal (one of `signals`) is consumed by the cube, that is by the
/// body of the part or, where the part has none, by the part itself,
/// unless the cube is powered without a timer (`powered_untimed`) or is
/// cooling down (`discharging`): the cube gets a direct signal and the
/// signal is removed.
pub fn cube_consume_signal(
    collider: EntityId,
    target: EntityId,
    target_body: Option<EntityId>,
    signals: &EntitySet,
    powered_untimed: &EntitySet,
    discharging: &EntitySet,
) -> (commands: Vec<Command>)
    ensures
        commands@ == consume_spec(
            collider,
            target_of(Contact { collider: target, body: target_body }),
            signals@,
            powered_untimed@,
            discharging@,
        ),
{
    let mut commands: Vec<Command> = Vec::new();
    if signals.contains(collider) {
        let receiver = match target_body {
            Some(body) => body,
            None => target,
        };
        if !powered_untimed.contains(receiver) && !discharging.contains(receiver) {
            commands.push(Command::SendDirectSignal(receiver));
            commands.push(Command::Despawn(collider));
        }
    }
    commands
}

/// Answers a direct signal to the cube `target`: the cube is powered
/// unless it is powered already or cooling down.
pub fn cube_direct_signal(
    target: EntityId,
    powered: &EntitySet,
    discharging: &EntitySet,
) -> (commands: Vec<Command>)
    ensures
        commands@ == if !powered@.contains(target) && !discharging@.contains(target) {
            seq![Command::InsertPowered(target)]
        } else {
            Seq::empty()
        },
{
    let mut commands: Vec<Command> = Vec::new();
    if !powered.contains(target) && !discharging.contains(target) {
        commands.push(Command::InsertPowered(target));
    }
    commands
}

/// The commands that follow when a cube has just been powered.
pub open spec fn cube_receive_power_spec(
    cube: EntityId,
    is_powered_by: bool,
    parts: Seq<Part>,
    animations: Seq<EntityId>,
) -> Seq<Command> {
    (if is_powered_by {
        Seq::<Command>::empty()
    } else {
        seq![Command::InsertPoweringUp(cube)]
    }) + restart_spec(parts, animations, Glow::Up)
}

/// Answers the cube `cube_entity` gaining power: a cube that draws its
/// power from no source (`is_powered_by` unset) takes its time to power
/// up, and in any case its parts glow up.
pub fn cube_receive_power(
    cube_entity: EntityId,
    is_powered_by: bool,
    cube_parts: &Vec<Part>,
    animations: &EntitySet,
) -> (commands: Vec<Command>)
    ensures
        commands@ == cube_receive_power_spec(cube_entity, is_powered_by, cube_parts@, animations@),
{
    let mut commands: Vec<Command> = Vec::new();
    if !is_powered_by {
        commands.push(Command::InsertPoweringUp(cube_entity));
    }
    restart_glow_into(&mut commands, cube_parts, animations, Glow::Up);
    commands
}

/// Answers a cube losing power: its parts fade.
pub fn cube_lose_power(cube_parts: &Vec<Part>, animations: &EntitySet) -> (commands: Vec<Command>)
    ensures
        commands@ == restart_spec(cube_parts@, animations@, Glow::Down),
{
    crate::glow::restart_glow(cube_parts, animations, Glow::Down)
}

impl CubeDischarge {
    /// A cooldown that has just begun.
    pub fn new() -> (discharge: CubeDischarge)
        ensures
            discharge.timer == animation_countdown(),
            discharge.timer.wf(),
    {
        CubeDischarge { timer: Countdown::new(POWER_ANIMATION_DURATION_SEC * NANOS_PER_SEC) }
    }

    /// Lets `delta_ns` pass on the cooldown of `cube_entity`. Once it is
    /// over the cooldown is dropped, and a cube that draws power from a
    /// source (`has_powered_by`) is powered again at once.
    pub fn update_cube_discharge_timers(
        &mut self,
        cube_entity: EntityId,
        delta_ns: u64,
        has_powered_by: bool,
    ) -> (commands: Vec<Command>)
        ensures
            final(self).timer == old(self).timer.after_tick(delta_ns),
            old(self).timer.wf() ==> final(self).timer.wf(),
            commands@ == if !final(self).timer.finished {
                Seq::<Command>::empty()
            } else if has_powered_by {
                seq![Command::RemoveCubeDischarge(cube_entity), Command::InsertPowered(cube_entity)]
            } else {
                seq![Command::RemoveCubeDischarge(cube_entity)]
            },
    {
        let mut commands: Vec<Command> = Vec::new();
        self.timer.tick(delta_ns);
        if self.timer.finished() {
            commands.push(Command::RemoveCubeDischarge(cube_entity));
            if has_powered_by {
                commands.push(Command::InsertPowered(cube_entity));
            }
        }
        commands
    }
}

impl PoweringUp {
    /// A powering up that has just begun.
    pub fn new() -> (powering: PoweringUp)
        ensures
            powering.timer == animation_countdown(),
            powering.timer.wf(),
    {
        PoweringUp { timer: Countdown::new(POWER_ANIMATION_DURATION_SEC * NANOS_PER_SEC) }
    }

    /// Lets `delta_ns` pass on the powering up of `cube_entity`. Once it
    /// is over the mark is taken from the cube.
    pub fn update_powering_up_timers(
        &mut self,
        cube_entity: EntityId,
        delta_ns: u64,
    ) -> (commands: Vec<Command>)
        ensures
            final(self).timer == old(self).timer.after_tick(delta_ns),
            old(self).timer.wf() ==> final(self).timer.wf(),
            commands@ == if final(self).timer.finished {
                seq![Command::RemovePoweringUp(cube_entity)]
            } else {
                Seq::empty()
            },
    {
        let mut commands: Vec<Command> = Vec::new();
        self.timer.tick(delta_ns);
        if self.timer.finished() {
            commands.push(Command::RemovePoweringUp(cube_entity));
        }
        commands
    }
}

} // verus!
