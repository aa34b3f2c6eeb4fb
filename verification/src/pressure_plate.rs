//! Pressure plates and the charge pads they feed.
//!
//! A plate is pressed while something stands on it and powers its targets
//! for as long. A charge pad passes its power on to one entity that rests
//! on it.

use crate::command::Command;
use crate::entity_set::{
    absent_from, distinct, head_of, lemma_distinct_push, list_contains, without, EntityId,
    EntitySet,
};
use crate::glow::{restart_glow_into, restart_spec, Glow, Part};
use vstd::prelude::*;

verus! {

/// Tells that a plate went down.
#[derive(Clone, Copy, Debug, PartialEq, Eq, Structural)]
pub struct PressurePlatePressed {
    /// The plate.
    pub plate_entity: EntityId,
    /// The entity that stepped on it.
    pub triggering_entity: EntityId,
}

/// Tells that a plate came up again.
#[derive(Clone, Copy, Debug, PartialEq, Eq)]
pub struct PressurePlateReleased {
    /// The plate.
    pub plate_entity: EntityId,
    /// An entity that has just left the plate, if any did in this step.
    pub last_entity: Option<EntityId>,
}

/// Tells that an entity came to rest on a charge pad.
#[derive(Clone, Copy, Debug, PartialEq, Eq, Structural)]
pub struct ChargePadEntityEntered {
    /// The charge pad.
    pub charge_pad_entity: EntityId,
    /// The entity that arrived.
    pub entity: EntityId,
}

/// Tells that an entity left a charge pad.
#[derive(Clone, Copy, Debug, PartialEq, Eq, Structural)]
pub struct ChargePadEntityLeft {
    /// The charge pad.
    pub charge_pad_entity: EntityId,
    /// The entity that went away.
    pub entity: EntityId,
}

/// What one step of a plate reports. At most one of the two is set.
#[derive(Clone, Copy, Debug, PartialEq, Eq)]
pub struct PlateStep {
    /// Set when the plate went down in this step.
    pub pressed: Option<PressurePlatePressed>,
    /// Set when the plate came up in this step.
    pub released: Option<PressurePlateReleased>,
}

/// What a plate knows from one step to the next.
pub struct PressurePlateDetector {
    /// The entities that stood on the plate at the last step.
    pub overlapping_entities: EntitySet,
    /// Whether the plate is down.
    pub is_pressed: bool,
}

/// The test "is neither `device` nor one of its `parts`".
pub open spec fn is_foreign_to(device: EntityId, parts: Seq<EntityId>) -> spec_fn(EntityId) -> bool {
    |e: EntityId| e != device && !parts.contains(e)
}

/// The entities among `overlapping` that count as standing on `device`:
/// all but the device itself and its own parts, each once.
pub open spec fn standing_on(
    device: EntityId,
    parts: Seq<EntityId>,
    overlapping: Seq<EntityId>,
) -> Seq<EntityId> {
    distinct(overlapping.filter(is_foreign_to(device, parts)))
}

/// Whether a plate goes down in a step: it was up, and something stands
/// on it `now` that did not `before`.
pub open spec fn goes_down(was_pressed: bool, before: Seq<EntityId>, now: Seq<EntityId>) -> bool {
    !was_pressed && without(now, before).len() > 0
}

/// Whether a plate comes up in a step: it is down, and nothing stands on
/// it `now`.
pub open spec fn comes_up(was_pressed: bool, before: Seq<EntityId>, now: Seq<EntityId>) -> bool {
    (was_pressed || goes_down(was_pressed, before, now)) && now.len() == 0
}

/// A plate never goes down and comes up in one step.
pub proof fn lemma_down_or_up(was_pressed: bool, before: Seq<EntityId>, now: Seq<EntityId>)
    ensures
        !(goes_down(was_pressed, before, now) && comes_up(was_pressed, before, now)),
{
    crate::entity_set::lemma_without(now, before);
}

/// A load that does not change moves nothing: the plate neither goes down
/// nor comes up.
pub proof fn lemma_steady_load_is_silent(was_pressed: bool, load: Seq<EntityId>)
    requires
        was_pressed == (load.len() > 0),
    ensures
        !goes_down(was_pressed, load, load),
        !comes_up(was_pressed, load, load),
{
    crate::entity_set::lemma_without_self(load);
}

/// A plate that is up goes down as soon as anything stands on it.
pub proof fn lemma_first_load_presses(now: Seq<EntityId>)
    requires
        now.len() > 0,
    ensures
        goes_down(false, Seq::<EntityId>::empty(), now),
        without(now, Seq::<EntityId>::empty())[0] == now[0],
{
    let nothing = Seq::<EntityId>::empty();
    let test = absent_from(nothing);
    assert forall|i: int| 0 <= i < now.len() implies test(#[trigger] now[i]) by {}
    crate::entity_set::lemma_filter_all(now, test);
}

impl PressurePlateDetector {
    /// A plate is down exactly while something stands on it.
    pub open spec fn wf(&self) -> bool {
        self.is_pressed == (self.overlapping_entities@.len() > 0)
    }

    /// A plate with nothing on it.
    pub fn new() -> (detector: PressurePlateDetector)
        ensures
            detector.overlapping_entities@ == Seq::<EntityId>::empty(),
            !detector.is_pressed,
            detector.wf(),
    {
        PressurePlateDetector { overlapping_entities: EntitySet::new(), is_pressed: false }
    }

    /// Takes in what the physics engine found inside the detection box of
    /// the plate `plate_entity` and reports whether the plate went down or
    /// came up.
    ///
    /// `plate_children` are the plate's own parts, which never count, and
    /// neither does the plate. The plate goes down when it was up and an
    /// entity stands on it that did not before; the first such entity is
    /// named as the cause. It comes up when nothing is left on it, and
    /// then names the first entity that has just left.
    pub fn update_pressure_plate_overlaps(
        &mut self,
        plate_entity: EntityId,
        plate_children: &Vec<EntityId>,
        overlapping: &Vec<EntityId>,
    ) -> (step: PlateStep)
        ensures
            final(self).overlapping_entities@ == standing_on(
                plate_entity,
                plate_children@,
                overlapping@,
            ),
            ({
                let before = old(self).overlapping_entities@;
                let now = standing_on(plate_entity, plate_children@, overlapping@);
                let entered = without(now, before);
                let left = without(before, now);
                let went_down = goes_down(old(self).is_pressed, before, now);
                let came_up = comes_up(old(self).is_pressed, before, now);
                &&& step.pressed == if went_down {
                    Some(
                        PressurePlatePressed {
                            plate_entity,
                            triggering_entity: entered[0],
                        },
                    )
                } else {
                    None
                }
                &&& step.released == if came_up {
                    Some(PressurePlateReleased { plate_entity, last_entity: head_of(left) })
                } else {
                    None
                }
                &&& final(self).is_pressed == ((old(self).is_pressed || went_down) && !came_up)
            }),
            old(self).wf() ==> final(self).wf(),
    {
        let ghost counts = is_foreign_to(plate_entity, plate_children@);
        let mut current = EntitySet::new();
        let mut i: usize = 0;
        proof {
            overlapping@.take(0).lemma_filter_len(counts);
            assert(overlapping@.take(0).filter(counts) =~= Seq::<EntityId>::empty());
        }
        while i < overlapping.len()
            invariant
                i <= overlapping@.len(),
                counts == is_foreign_to(plate_entity, plate_children@),
                current@ == distinct(overlapping@.take(i as int).filter(counts)),
            decreases overlapping.len() - i,
        {
            let entity = overlapping[i];
            proof {
                let upto = overlapping@.take(i as int);
                assert(overlapping@.take(i + 1) =~= upto.push(entity));
                upto.lemma_filter_push(entity, counts);
                lemma_distinct_push(upto.filter(counts), entity);
            }
            if entity != plate_entity && !list_contains(plate_children, entity) {
                current.insert(entity);
            }
            i += 1;
        }
        proof {
            assert(overlapping@.take(i as int) =~= overlapping@);
        }
        let entered = current.difference(&self.overlapping_entities);
        let left = self.overlapping_entities.difference(&current);
        proof {
            current@.lemma_filter_len(absent_from(old(self).overlapping_entities@));
            if old(self).wf() && current@.len() > 0 && !old(self).is_pressed {
                assert(old(self).overlapping_entities@.len() == 0);
                assert(!old(self).overlapping_entities@.contains(current@[0]));
                current@.lemma_filter_contains(absent_from(old(self).overlapping_entities@), 0);
            }
        }
        let mut pressed: Option<PressurePlatePressed> = None;
        if !self.is_pressed && entered.len() > 0 {
            self.is_pressed = true;
            pressed = Some(PressurePlatePressed { plate_entity, triggering_entity: entered[0] });
        }
        let mut released: Option<PressurePlateReleased> = None;
        let now_empty = current.is_empty();
        self.overlapping_entities = current;
        if self.is_pressed && now_empty {
            self.is_pressed = false;
            let last_entity = if left.len() > 0 {
                Some(left[0])
            } else {
                None
            };
            released = Some(PressurePlateReleased { plate_entity, last_entity });
        }
        PlateStep { pressed, released }
    }
}

/// The commands that follow when a plate goes down: its parts sink, then
/// each target is powered.
pub open spec fn plate_pressed_spec(parts: Seq<EntityId>, targets: Seq<EntityId>) -> Seq<Command> {
    parts.map_values(|e: EntityId| Command::SinkPlate(e)) + targets.map_values(
        |e: EntityId| Command::InsertPowered(e),
    )
}

/// The commands that follow when a plate comes up: its parts rise, then
/// each target loses its power.
pub open spec fn plate_released_spec(parts: Seq<EntityId>, targets: Seq<EntityId>) -> Seq<Command> {
    parts.map_values(|e: EntityId| Command::RaisePlate(e)) + targets.map_values(
        |e: EntityId| Command::RemovePowered(e),
    )
}

/// Answers a plate that went down: lets its parts (`plate_children`) sink
/// and powers every entity that the plate feeds (`power_targets`).
pub fn on_pressure_plate_pressed(
    plate_children: &Vec<EntityId>,
    power_targets: &Vec<EntityId>,
) -> (commands: Vec<Command>)
    ensures
        commands@ == plate_pressed_spec(plate_children@, power_targets@),
{
    let mut commands: Vec<Command> = Vec::new();
    let mut i: usize = 0;
    while i < plate_children.len()
        invariant
            i <= plate_children@.len(),
            commands@ == plate_children@.take(i as int).map_values(
                |e: EntityId| Command::SinkPlate(e),
            ),
        decreases plate_children.len() - i,
    {
        commands.push(Command::SinkPlate(plate_children[i]));
        i += 1;
        proof {
            assert(commands@ =~= plate_children@.take(i as int).map_values(
                |e: EntityId| Command::SinkPlate(e),
            ));
        }
    }
    let ghost head = commands@;
    let mut j: usize = 0;
    while j < power_targets.len()
        invariant
            j <= power_targets@.len(),
            commands@ == head + power_targets@.take(j as int).map_values(
                |e: EntityId| Command::InsertPowered(e),
            ),
        decreases power_targets.len() - j,
    {
        commands.push(Command::InsertPowered(power_targets[j]));
        j += 1;
        proof {
            assert(commands@ =~= head + power_targets@.take(j as int).map_values(
                |e: EntityId| Command::InsertPowered(e),
            ));
        }
    }
    proof {
        assert(plate_children@.take(i as int) =~= plate_children@);
        assert(power_targets@.take(j as int) =~= power_targets@);
    }
    commands
}

/// Answers a plate that came up: lets its parts (`plate_children`) rise
/// and takes the power from every entity that the plate feeds
/// (`power_targets`).
pub fn on_pressure_plate_released(
    plate_children: &Vec<EntityId>,
    power_targets: &Vec<EntityId>,
) -> (commands: Vec<Command>)
    ensures
        commands@ == plate_released_spec(plate_children@, power_targets@),
{
    let mut commands: Vec<Command> = Vec::new();
    let mut i: usize = 0;
    while i < plate_children.len()
        invariant
            i <= plate_children@.len(),
            commands@ == plate_children@.take(i as int).map_values(
                |e: EntityId| Command::RaisePlate(e),
            ),
        decreases plate_children.len() - i,
    {
        commands.push(Command::RaisePlate(plate_children[i]));
        i += 1;
        proof {
            assert(commands@ =~= plate_children@.take(i as int).map_values(
                |e: EntityId| Command::RaisePlate(e),
            ));
        }
    }
    let ghost head = commands@;
    let mut j: usize = 0;
    while j < power_targets.len()
        invariant
            j <= power_targets@.len(),
            commands@ == head + power_targets@.take(j as int).map_values(
                |e: EntityId| Command::RemovePowered(e),
            ),
        decreases power_targets.len() - j,
    {
        commands.push(Command::RemovePowered(power_targets[j]));
        j += 1;
        proof {
            assert(commands@ =~= head + power_targets@.take(j as int).map_values(
                |e: EntityId| Command::RemovePowered(e),
            ));
        }
    }
    proof {
        assert(plate_children@.take(i as int) =~= plate_children@);
        assert(power_targets@.take(j as int) =~= power_targets@);
    }
    commands
}

/// A collider that the physics engine found inside a detection volume,
/// with the body it belongs to, if it belongs to one.
#[derive(Clone, Copy, Debug, PartialEq, Eq)]
pub struct Contact {
    /// The collider.
    pub collider: EntityId,
    /// The body that carries the collider.
    pub body: Option<EntityId>,
}

/// What a charge pad knows from one step to the next.
pub struct ChargePadDetector {
    /// The entity that the pad is charging; one at a time.
    pub charged_entity: Option<EntityId>,
    /// The bodies that rested on the pad at the last step.
    pub overlapping_entities: EntitySet,
}

/// What one step of a charge pad reports: who came and who went, each in
/// the order in which the pad saw them.
pub struct ChargePadStep {
    /// The bodies that rest on the pad now and did not before.
    pub entered: Vec<ChargePadEntityEntered>,
    /// The bodies that rested on the pad before and do not now.
    pub left: Vec<ChargePadEntityLeft>,
}

/// The body that a contact brings onto `device`: that of any collider
/// which is neither the device nor one of its `parts`.
pub open spec fn body_on(
    device: EntityId,
    parts: Seq<EntityId>,
) -> spec_fn(Contact) -> Option<EntityId> {
    |c: Contact|
        if c.collider != device && !parts.contains(c.collider) {
            c.body
        } else {
            None
        }
}

/// The bodies that rest on `device`, each once.
pub open spec fn resting_on(
    device: EntityId,
    parts: Seq<EntityId>,
    overlapping: Seq<Contact>,
) -> Seq<EntityId> {
    distinct(overlapping.filter_map(body_on(device, parts)))
}

/// The arrival of `entity` on `pad`.
pub open spec fn entered_event(pad: EntityId) -> spec_fn(EntityId) -> ChargePadEntityEntered {
    |entity: EntityId| ChargePadEntityEntered { charge_pad_entity: pad, entity }
}

/// The departure of `entity` from `pad`.
pub open spec fn left_event(pad: EntityId) -> spec_fn(EntityId) -> ChargePadEntityLeft {
    |entity: EntityId| ChargePadEntityLeft { charge_pad_entity: pad, entity }
}

/// The commands that put `entity` under the power of `source`.
pub open spec fn charge_spec(entity: EntityId, source: EntityId) -> Seq<Command> {
    seq![Command::InsertPowered(entity), Command::InsertPoweredBy { entity, source }]
}

/// The commands that end the charging of `entity` by `pad`. Only an
/// entity that draws its power from this pad is touched; a cube keeps its
/// power and only forgets the pad.
pub open spec fn release_spec(
    entity: EntityId,
    powered_by: Option<EntityId>,
    pad: EntityId,
    is_cube: bool,
) -> Seq<Command> {
    if powered_by == Some(pad) {
        if is_cube {
            seq![Command::RemovePoweredBy(entity)]
        } else {
            seq![Command::RemovePowered(entity), Command::RemovePoweredBy(entity)]
        }
    } else {
        Seq::empty()
    }
}

fn charge(commands: &mut Vec<Command>, entity: EntityId, source: EntityId)
    ensures
        final(commands)@ == old(commands)@ + charge_spec(entity, source),
{
    commands.push(Command::InsertPowered(entity));
    commands.push(Command::InsertPoweredBy { entity, source });
    proof {
        assert(commands@ =~= old(commands)@ + charge_spec(entity, source));
    }
}

fn release(
    commands: &mut Vec<Command>,
    entity: EntityId,
    powered_by: Option<EntityId>,
    pad: EntityId,
    is_cube: bool,
)
    ensures
        final(commands)@ == old(commands)@ + release_spec(entity, powered_by, pad, is_cube),
{
    if let Some(source) = powered_by {
        if source == pad {
            if !is_cube {
                commands.push(Command::RemovePowered(entity));
            }
            commands.push(Command::RemovePoweredBy(entity));
        }
    }
    proof {
        assert(commands@ =~= old(commands)@ + release_spec(entity, powered_by, pad, is_cube));
    }
}

impl ChargePadDetector {
    /// A pad that charges nothing and has nothing on it.
    pub fn new() -> (detector: ChargePadDetector)
        ensures
            detector.charged_entity.is_none(),
            detector.overlapping_entities@ == Seq::<EntityId>::empty(),
    {
        ChargePadDetector { charged_entity: None, overlapping_entities: EntitySet::new() }
    }

    /// Takes in what the physics engine found inside the detection box of
    /// the pad `charge_pad_entity` and reports which bodies arrived and
    /// which went away.
    ///
    /// The pad and its own parts (`charge_pad_children`) never count, nor
    /// does a collider without a body.
    pub fn update_charge_pad_overlaps(
        &mut self,
        charge_pad_entity: EntityId,
        charge_pad_children: &Vec<EntityId>,
        overlapping: &Vec<Contact>,
    ) -> (step: ChargePadStep)
        ensures
            final(self).overlapping_entities@ == resting_on(
                charge_pad_entity,
                charge_pad_children@,
                overlapping@,
            ),
            final(self).charged_entity == old(self).charged_entity,
            step.entered@ == without(
                final(self).overlapping_entities@,
                old(self).overlapping_entities@,
            ).map_values(entered_event(charge_pad_entity)),
            step.left@ == without(
                old(self).overlapping_entities@,
                final(self).overlapping_entities@,
            ).map_values(left_event(charge_pad_entity)),
    {
        let ghost brings = body_on(charge_pad_entity, charge_pad_children@);
        let mut current = EntitySet::new();
        let mut i: usize = 0;
        while i < overlapping.len()
            invariant
                i <= overlapping@.len(),
                brings == body_on(charge_pad_entity, charge_pad_children@),
                current@ == distinct(overlapping@.take(i as int).filter_map(brings)),
            decreases overlapping.len() - i,
        {
            let contact = overlapping[i];
            proof {
                let upto = overlapping@.take(i as int).filter_map(brings);
                overlapping@.lemma_filter_map_take_succ(brings, i as int);
                if let Some(body) = brings(contact) {
                    assert(upto + seq![body] =~= upto.push(body));
                    lemma_distinct_push(upto, body);
                } else {
                    assert(upto + Seq::<EntityId>::empty() =~= upto);
                }
            }
            if contact.collider != charge_pad_entity && !list_contains(
                charge_pad_children,
                contact.collider,
            ) {
                if let Some(body) = contact.body {
                    current.insert(body);
                }
            }
            i += 1;
        }
        proof {
            assert(overlapping@.take(i as int) =~= overlapping@);
        }
        let arrived = current.difference(&self.overlapping_entities);
        let departed = self.overlapping_entities.difference(&current);
        let mut entered: Vec<ChargePadEntityEntered> = Vec::new();
        let mut j: usize = 0;
        while j < arrived.len()
            invariant
                j <= arrived@.len(),
                entered@ == arrived@.take(j as int).map_values(entered_event(charge_pad_entity)),
            decreases arrived.len() - j,
        {
            entered.push(ChargePadEntityEntered { charge_pad_entity, entity: arrived[j] });
            j += 1;
            proof {
                assert(entered@ =~= arrived@.take(j as int).map_values(
                    entered_event(charge_pad_entity),
                ));
            }
        }
        let mut left: Vec<ChargePadEntityLeft> = Vec::new();
        let mut k: usize = 0;
        while k < departed.len()
            invariant
                k <= departed@.len(),
                left@ == departed@.take(k as int).map_values(left_event(charge_pad_entity)),
            decreases departed.len() - k,
        {
            left.push(ChargePadEntityLeft { charge_pad_entity, entity: departed[k] });
            k += 1;
            proof {
                assert(left@ =~= departed@.take(k as int).map_values(
                    left_event(charge_pad_entity),
                ));
            }
        }
        proof {
            assert(arrived@.take(j as int) =~= arrived@);
            assert(departed@.take(k as int) =~= departed@);
        }
        self.overlapping_entities = current;
        ChargePadStep { entered, left }
    }

    /// Answers the arrival of `entering` on the pad `charge_pad_entity`.
    ///
    /// A pad that charges nothing takes the newcomer as its charge, and,
    /// if the pad itself is powered (`pad_powered`), powers it. A pad that
    /// is busy ignores the newcomer.
    pub fn on_charge_pad_entity_entered(
        &mut self,
        charge_pad_entity: EntityId,
        entering: EntityId,
        pad_powered: bool,
    ) -> (commands: Vec<Command>)
        ensures
            final(self).overlapping_entities == old(self).overlapping_entities,
            final(self).charged_entity == if old(self).charged_entity.is_none() {
                Some(entering)
            } else {
                old(self).charged_entity
            },
            commands@ == if old(self).charged_entity.is_none() && pad_powered {
                charge_spec(entering, charge_pad_entity)
            } else {
                Seq::empty()
            },
    {
        let mut commands: Vec<Command> = Vec::new();
        if self.charged_entity.is_none() {
            self.charged_entity = Some(entering);
            if pad_powered {
                charge(&mut commands, entering, charge_pad_entity);
            }
        }
        commands
    }

    /// The entity that takes the place of `leaving` as the pad's charge:
    /// the first body on the pad, unless that is the one that leaves.
    pub open spec fn successor(&self, leaving: EntityId) -> Option<EntityId> {
        match head_of(self.overlapping_entities@) {
            Some(next) => if next != leaving {
                Some(next)
            } else {
                None
            },
            None => None,
        }
    }

    /// Answers the departure of `leaving` from the pad
    /// `charge_pad_entity`.
    ///
    /// Nothing happens unless `leaving` is the pad's charge. If it is, the
    /// pad lets go of it: an entity that draws its power from this pad
    /// (`leaving_powered_by`) loses it, except that a cube
    /// (`leaving_is_cube`) keeps its power and only forgets the pad. The
    /// first body still on the pad then becomes the new charge and is
    /// powered.
    pub fn on_charge_pad_entity_left(
        &mut self,
        charge_pad_entity: EntityId,
        leaving: EntityId,
        leaving_powered_by: Option<EntityId>,
        leaving_is_cube: bool,
    ) -> (commands: Vec<Command>)
        ensures
            final(self).overlapping_entities == old(self).overlapping_entities,
            final(self).charged_entity == if old(self).charged_entity == Some(leaving) {
                old(self).successor(leaving)
            } else {
                old(self).charged_entity
            },
            commands@ == if old(self).charged_entity == Some(leaving) {
                release_spec(leaving, leaving_powered_by, charge_pad_entity, leaving_is_cube) + (
                match old(self).successor(leaving) {
                    Some(next) => charge_spec(next, charge_pad_entity),
                    None => Seq::empty(),
                })
            } else {
                Seq::empty()
            },
    {
        let mut commands: Vec<Command> = Vec::new();
        let is_charge = match self.charged_entity {
            Some(charged) => charged == leaving,
            None => false,
        };
        if is_charge {
            self.charged_entity = None;
            release(
                &mut commands,
                leaving,
                leaving_powered_by,
                charge_pad_entity,
                leaving_is_cube,
            );
            if let Some(next) = self.overlapping_entities.first() {
                if next != leaving {
                    self.charged_entity = Some(next);
                    charge(&mut commands, next, charge_pad_entity);
                }
            }
        }
        commands
    }

    /// Answers the pad `charge_pad_entity` gaining power: it passes the
    /// power on to its charge, if it has one, and its parts (`pad_parts`)
    /// glow up.
    pub fn charge_pad_receive_power(
        &self,
        charge_pad_entity: EntityId,
        pad_parts: &Vec<Part>,
        animations: &EntitySet,
    ) -> (commands: Vec<Command>)
        ensures
            commands@ == (match self.charged_entity {
                Some(charged) => charge_spec(charged, charge_pad_entity),
                None => Seq::empty(),
            }) + restart_spec(pad_parts@, animations@, Glow::Up),
    {
        let mut commands: Vec<Command> = Vec::new();
        if let Some(charged) = self.charged_entity {
            charge(&mut commands, charged, charge_pad_entity);
        }
        restart_glow_into(&mut commands, pad_parts, animations, Glow::Up);
        commands
    }

    /// Answers the pad `charge_pad_entity` losing power: its charge, if it
    /// draws its power from this pad (`charged_powered_by`), loses it,
    /// except that a cube (`charged_is_cube`) keeps its power and only
    /// forgets the pad. The parts of the pad (`pad_parts`) fade.
    pub fn charge_pad_lose_power(
        &self,
        charge_pad_entity: EntityId,
        charged_powered_by: Option<EntityId>,
        charged_is_cube: bool,
        pad_parts: &Vec<Part>,
        animations: &EntitySet,
    ) -> (commands: Vec<Command>)
        ensures
            commands@ == (match self.charged_entity {
                Some(charged) => release_spec(
                    charged,
                    charged_powered_by,
                    charge_pad_entity,
                    charged_is_cube,
                ),
                None => Seq::empty(),
            }) + restart_spec(pad_parts@, animations@, Glow::Down),
    {
        let mut commands: Vec<Command> = Vec::new();
        if let Some(charged) = self.charged_entity {
            release(
                &mut commands,
                charged,
                charged_powered_by,
                charge_pad_entity,
                charged_is_cube,
            );
        }
        restart_glow_into(&mut commands, pad_parts, animations, Glow::Down);
        commands
    }
}

/// Finds the charge pad that a new plate feeds: the first of the plate's
/// `siblings`, other than the plate itself, that is one of
/// `charge_pads`. The pad then draws its power from the plate.
pub fn register_pressure_plates(
    plate_entity: EntityId,
    siblings: &Vec<EntityId>,
    charge_pads: &EntitySet,
) -> (charge_pad: Option<EntityId>)
    ensures
        charge_pad == head_of(
            siblings@.filter(crate::hierarchy::sibling_test(plate_entity, charge_pads@, true)),
        ),
{
    let pads = crate::hierarchy::siblings_where(plate_entity, siblings, charge_pads, true);
    if pads.len() > 0 {
        Some(pads[0])
    } else {
        None
    }
}

} // verus!
