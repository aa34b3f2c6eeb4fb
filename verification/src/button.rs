//! Power buttons: pressing one sends a signal to each of its targets a
//! moment later.

use crate::command::Command;
use crate::entity_set::{EntityId, EntitySet};
use crate::glow::{restart_glow_into, restart_spec, Glow, Part};
use crate::hierarchy::{sibling_test, siblings_where};
use crate::timer::{Countdown, NANOS_PER_MILLI};
use vstd::prelude::*;

verus! {

/// Milliseconds between the press of a button and the signal to its
/// targets.
pub const BUTTON_SIGNAL_DELAY_MS: u64 = 500;

/// The entities that a button signals.
pub struct ButtonTargets(pub Vec<EntityId>);

/// A signal on its way from a button to one target.
#[derive(Clone, Copy, Debug, PartialEq, Eq, Structural)]
pub struct DelayedSignalTimer {
    /// Counts down to the delivery.
    pub timer: Countdown,
    /// Who gets the signal.
    pub target: EntityId,
}

/// The targets of a new button: its `siblings`, but for the doors among
/// them. A button never powers a door directly.
pub fn register_buttons(
    button_entity: EntityId,
    siblings: &Vec<EntityId>,
    doors: &EntitySet,
) -> (targets: ButtonTargets)
    ensures
        targets.0@ == siblings@.filter(sibling_test(button_entity, doors@, false)),
{
    ButtonTargets(siblings_where(button_entity, siblings, doors, false))
}

/// The delayed signal to `target`.
pub open spec fn delayed_signal(target: EntityId) -> Command {
    Command::SendDelayedSignal {
        target,
        delay_ns: (BUTTON_SIGNAL_DELAY_MS * NANOS_PER_MILLI) as u64,
    }
}

/// The commands that follow the press of a button: its parts flash, then
/// one delayed signal leaves for each target.
pub open spec fn button_pressed_spec(
    parts: Seq<Part>,
    animations: Seq<EntityId>,
    targets: Seq<EntityId>,
) -> Seq<Command> {
    restart_spec(parts, animations, Glow::Flash) + targets.map_values(
        |t: EntityId| delayed_signal(t),
    )
}

/// Answers the press of a button with the parts `button_parts` and the
/// targets `button_targets`: the parts flash, and each target gets a
/// signal after the button's delay.
pub fn button_pressed(
    button_targets: &ButtonTargets,
    button_parts: &Vec<Part>,
    animations: &EntitySet,
) -> (commands: Vec<Command>)
    ensures
        commands@ == button_pressed_spec(button_parts@, animations@, button_targets.0@),
{
    let mut commands: Vec<Command> = Vec::new();
    restart_glow_into(&mut commands, button_parts, animations, Glow::Flash);
    let ghost head = commands@;
    proof {
        assert(head =~= restart_spec(button_parts@, animations@, Glow::Flash));
    }
    let mut i: usize = 0;
    while i < button_targets.0.len()
        invariant
            i <= button_targets.0@.len(),
            commands@ == head + button_targets.0@.take(i as int).map_values(
                |t: EntityId| delayed_signal(t),
            ),
        decreases button_targets.0.len() - i,
    {
        commands.push(
            Command::SendDelayedSignal {
                target: button_targets.0[i],
                delay_ns: BUTTON_SIGNAL_DELAY_MS * NANOS_PER_MILLI,
            },
        );
        i += 1;
        proof {
            assert(commands@ =~= head + button_targets.0@.take(i as int).map_values(
                |t: EntityId| delayed_signal(t),
            ));
        }
    }
    proof {
        assert(button_targets.0@.take(i as int) =~= button_targets.0@);
    }
    commands
}

impl DelayedSignalTimer {
    /// A signal that reaches `target` after the button's delay.
    pub fn new(target: EntityId) -> (signal: DelayedSignalTimer)
        ensures
            signal.target == target,
            signal.timer == (Countdown {
                elapsed_ns: 0,
                duration_ns: (BUTTON_SIGNAL_DELAY_MS * NANOS_PER_MILLI) as u64,
                finished: false,
            }),
            signal.timer.wf(),
    {
        DelayedSignalTimer { timer: Countdown::new(BUTTON_SIGNAL_DELAY_MS * NANOS_PER_MILLI), target }
    }

    /// Lets `delta_ns` pass on the delayed signal that lives on
    /// `timer_entity`. Once the delay is over the target gets its signal
    /// and the timer entity is removed.
    pub fn update_delayed_signals(
        &mut self,
        timer_entity: EntityId,
        delta_ns: u64,
    ) -> (commands: Vec<Command>)
        ensures
            final(self).target == old(self).target,
            final(self).timer == old(self).timer.after_tick(delta_ns),
            old(self).timer.wf() ==> final(self).timer.wf(),
            commands@ == if final(self).timer.finished {
                seq![Command::SendDirectSignal(old(self).target), Command::Despawn(timer_entity)]
            } else {
                Seq::empty()
            },
    {
        let mut commands: Vec<Command> = Vec::new();
        self.timer.tick(delta_ns);
        if self.timer.finished() {
            commands.push(Command::SendDirectSignal(self.target));
            commands.push(Command::Despawn(timer_entity));
        }
        commands
    }
}

} // verus!
