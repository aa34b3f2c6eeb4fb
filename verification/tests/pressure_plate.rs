use hall_signals::command::Command;
use hall_signals::entity_set::EntitySet;
use hall_signals::glow::Part;
use hall_signals::pressure_plate::{
    on_pressure_plate_pressed, on_pressure_plate_released, register_pressure_plates,
    ChargePadDetector, ChargePadEntityEntered, ChargePadEntityLeft, Contact,
    PressurePlateDetector, PressurePlatePressed, PressurePlateReleased,
};

#[test]
fn plate_goes_down_and_comes_up() {
    let mut detector = PressurePlateDetector::new();
    let children = vec![11u64, 12];
    let step = detector.update_pressure_plate_overlaps(10, &children, &vec![10, 11, 40, 41, 40]);
    assert_eq!(
        step.pressed,
        Some(PressurePlatePressed { plate_entity: 10, triggering_entity: 40 })
    );
    assert_eq!(step.released, None);
    assert!(detector.is_pressed);
    assert_eq!(detector.overlapping_entities.to_vec(), vec![40, 41]);

    let step = detector.update_pressure_plate_overlaps(10, &children, &vec![41]);
    assert_eq!(step.pressed, None);
    assert_eq!(step.released, None);
    assert!(detector.is_pressed);
    assert_eq!(detector.overlapping_entities.to_vec(), vec![41]);

    let step = detector.update_pressure_plate_overlaps(10, &children, &vec![12]);
    assert_eq!(step.pressed, None);
    assert_eq!(
        step.released,
        Some(PressurePlateReleased { plate_entity: 10, last_entity: Some(41) })
    );
    assert!(!detector.is_pressed);
    assert!(detector.overlapping_entities.is_empty());
}

#[test]
fn plate_ignores_itself_and_its_parts() {
    let mut detector = PressurePlateDetector::new();
    let step = detector.update_pressure_plate_overlaps(1, &vec![2, 3], &vec![1, 2, 3, 3, 1]);
    assert_eq!(step.pressed, None);
    assert_eq!(step.released, None);
    assert!(!detector.is_pressed);
}

#[test]
fn steady_load_on_plate_is_silent() {
    let mut detector = PressurePlateDetector::new();
    detector.update_pressure_plate_overlaps(1, &vec![], &vec![5, 6]);
    let step = detector.update_pressure_plate_overlaps(1, &vec![], &vec![6, 5]);
    assert_eq!(step.pressed, None);
    assert_eq!(step.released, None);
    assert!(detector.is_pressed);
    assert_eq!(detector.overlapping_entities.to_vec(), vec![6, 5]);
}

#[test]
fn swapped_load_keeps_plate_down() {
    let mut detector = PressurePlateDetector::new();
    detector.update_pressure_plate_overlaps(1, &vec![], &vec![5]);
    let step = detector.update_pressure_plate_overlaps(1, &vec![], &vec![6]);
    assert_eq!(step.pressed, None);
    assert_eq!(step.released, None);
    assert!(detector.is_pressed);
}

#[test]
fn empty_plate_stays_up() {
    let mut detector = PressurePlateDetector::new();
    let step = detector.update_pressure_plate_overlaps(1, &vec![], &vec![]);
    assert_eq!(step.pressed, None);
    assert_eq!(step.released, None);
    assert!(!detector.is_pressed);
}

#[test]
fn plate_marked_down_without_load_comes_up_without_a_name() {
    let mut detector =
        PressurePlateDetector { overlapping_entities: EntitySet::new(), is_pressed: true };
    let step = detector.update_pressure_plate_overlaps(1, &vec![], &vec![]);
    assert_eq!(step.pressed, None);
    assert_eq!(step.released, Some(PressurePlateReleased { plate_entity: 1, last_entity: None }));
    assert!(!detector.is_pressed);
}

#[test]
fn pressed_plate_sinks_and_powers_targets() {
    assert_eq!(
        on_pressure_plate_pressed(&vec![2, 3], &vec![20, 21]),
        vec![
            Command::SinkPlate(2),
            Command::SinkPlate(3),
            Command::InsertPowered(20),
            Command::InsertPowered(21)
        ]
    );
    assert_eq!(on_pressure_plate_pressed(&vec![], &vec![]), vec![]);
}

#[test]
fn released_plate_rises_and_unpowers_targets() {
    assert_eq!(
        on_pressure_plate_released(&vec![2], &vec![20, 21]),
        vec![Command::RaisePlate(2), Command::RemovePowered(20), Command::RemovePowered(21)]
    );
}

#[test]
fn plate_finds_first_charge_pad_sibling() {
    let pads = EntitySet::from_vec(&vec![30, 31, 10]);
    assert_eq!(register_pressure_plates(10, &vec![9, 10, 31, 30], &pads), Some(31));
    assert_eq!(register_pressure_plates(10, &vec![9, 10], &pads), None);
    assert_eq!(register_pressure_plates(10, &vec![], &pads), None);
}

fn contact(collider: u64, body: Option<u64>) -> Contact {
    Contact { collider, body }
}

#[test]
fn charge_pad_reports_arrivals_and_departures() {
    let mut pad = ChargePadDetector::new();
    let step = pad.update_charge_pad_overlaps(
        1,
        &vec![2],
        &vec![
            contact(1, Some(1)),
            contact(2, Some(1)),
            contact(50, Some(5)),
            contact(51, Some(5)),
            contact(60, None),
            contact(70, Some(7)),
        ],
    );
    assert_eq!(
        step.entered,
        vec![
            ChargePadEntityEntered { charge_pad_entity: 1, entity: 5 },
            ChargePadEntityEntered { charge_pad_entity: 1, entity: 7 }
        ]
    );
    assert_eq!(step.left, vec![]);
    assert_eq!(pad.overlapping_entities.to_vec(), vec![5, 7]);

    let step = pad.update_charge_pad_overlaps(1, &vec![2], &vec![contact(70, Some(7)), contact(80, Some(8))]);
    assert_eq!(step.entered, vec![ChargePadEntityEntered { charge_pad_entity: 1, entity: 8 }]);
    assert_eq!(step.left, vec![ChargePadEntityLeft { charge_pad_entity: 1, entity: 5 }]);
    assert_eq!(pad.overlapping_entities.to_vec(), vec![7, 8]);

    let step = pad.update_charge_pad_overlaps(1, &vec![2], &vec![contact(70, Some(7)), contact(80, Some(8))]);
    assert_eq!(step.entered, vec![]);
    assert_eq!(step.left, vec![]);
}

#[test]
fn powered_pad_charges_first_arrival_only() {
    let mut pad = ChargePadDetector::new();
    assert_eq!(
        pad.on_charge_pad_entity_entered(1, 5, true),
        vec![Command::InsertPowered(5), Command::InsertPoweredBy { entity: 5, source: 1 }]
    );
    assert_eq!(pad.charged_entity, Some(5));
    assert_eq!(pad.on_charge_pad_entity_entered(1, 6, true), vec![]);
    assert_eq!(pad.charged_entity, Some(5));
}

#[test]
fn unpowered_pad_takes_charge_without_power() {
    let mut pad = ChargePadDetector::new();
    assert_eq!(pad.on_charge_pad_entity_entered(1, 5, false), vec![]);
    assert_eq!(pad.charged_entity, Some(5));
}

#[test]
fn leaving_charge_loses_power_and_next_takes_over() {
    let mut pad = ChargePadDetector {
        charged_entity: Some(5),
        overlapping_entities: EntitySet::from_vec(&vec![6, 7]),
    };
    assert_eq!(
        pad.on_charge_pad_entity_left(1, 5, Some(1), false),
        vec![
            Command::RemovePowered(5),
            Command::RemovePoweredBy(5),
            Command::InsertPowered(6),
            Command::InsertPoweredBy { entity: 6, source: 1 }
        ]
    );
    assert_eq!(pad.charged_entity, Some(6));
}

#[test]
fn leaving_cube_keeps_its_power() {
    let mut pad = ChargePadDetector { charged_entity: Some(5), overlapping_entities: EntitySet::new() };
    assert_eq!(pad.on_charge_pad_entity_left(1, 5, Some(1), true), vec![Command::RemovePoweredBy(5)]);
    assert_eq!(pad.charged_entity, None);
}

#[test]
fn leaving_charge_powered_by_another_is_untouched() {
    let mut pad = ChargePadDetector { charged_entity: Some(5), overlapping_entities: EntitySet::new() };
    assert_eq!(pad.on_charge_pad_entity_left(1, 5, Some(99), false), vec![]);
    assert_eq!(pad.charged_entity, None);
    let mut pad = ChargePadDetector { charged_entity: Some(5), overlapping_entities: EntitySet::new() };
    assert_eq!(pad.on_charge_pad_entity_left(1, 5, None, false), vec![]);
}

#[test]
fn leaving_bystander_changes_nothing() {
    let mut pad = ChargePadDetector {
        charged_entity: Some(5),
        overlapping_entities: EntitySet::from_vec(&vec![5]),
    };
    assert_eq!(pad.on_charge_pad_entity_left(1, 6, Some(1), false), vec![]);
    assert_eq!(pad.charged_entity, Some(5));
    let mut idle = ChargePadDetector::new();
    assert_eq!(idle.on_charge_pad_entity_left(1, 6, Some(1), false), vec![]);
    assert_eq!(idle.charged_entity, None);
}

#[test]
fn leaving_charge_still_listed_first_is_not_recharged() {
    let mut pad = ChargePadDetector {
        charged_entity: Some(5),
        overlapping_entities: EntitySet::from_vec(&vec![5, 6]),
    };
    assert_eq!(
        pad.on_charge_pad_entity_left(1, 5, Some(1), false),
        vec![Command::RemovePowered(5), Command::RemovePoweredBy(5)]
    );
    assert_eq!(pad.charged_entity, None);
}

#[test]
fn pad_passes_power_on_and_takes_it_back() {
    let pad = ChargePadDetector { charged_entity: Some(5), overlapping_entities: EntitySet::new() };
    let parts = vec![Part { entity: 2, children: vec![90, 91], has_material: true }];
    let animations = EntitySet::from_vec(&vec![91]);
    let none = EntitySet::new();
    assert_eq!(
        pad.charge_pad_receive_power(1, &parts, &animations),
        vec![
            Command::InsertPowered(5),
            Command::InsertPoweredBy { entity: 5, source: 1 },
            Command::Despawn(91),
            Command::GlowUp(2)
        ]
    );
    assert_eq!(
        pad.charge_pad_lose_power(1, Some(1), false, &parts, &animations),
        vec![
            Command::RemovePowered(5),
            Command::RemovePoweredBy(5),
            Command::Despawn(91),
            Command::GlowDown(2)
        ]
    );
    assert_eq!(
        pad.charge_pad_lose_power(1, Some(1), true, &vec![], &none),
        vec![Command::RemovePoweredBy(5)]
    );
    assert_eq!(pad.charge_pad_lose_power(1, Some(2), false, &vec![], &none), vec![]);
    let idle = ChargePadDetector::new();
    assert_eq!(idle.charge_pad_receive_power(1, &vec![], &none), vec![]);
    assert_eq!(idle.charge_pad_receive_power(1, &parts, &none), vec![Command::GlowUp(2)]);
    assert_eq!(idle.charge_pad_lose_power(1, Some(1), false, &vec![], &none), vec![]);
}
