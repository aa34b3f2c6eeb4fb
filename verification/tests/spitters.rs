use hall_signals::command::{BodyKind, Command};
use hall_signals::cube_spitter::{
    check_and_replace_wall_cubes, cube_spitter_direct_signal, cube_spitter_lose_power,
    cube_spitter_receive_power, register_cube_spitter_signals,
};
use hall_signals::entity_set::EntitySet;
use hall_signals::glow::Part;
use hall_signals::signal_spitter::{
    handle_continuous_signal_emission, signal_spitter_direct_signal, signal_spitter_lose_power,
    signal_spitter_receive_power, ContinuousEmission, DIRECT_SIGNAL_DELAY_MS,
};
use hall_signals::signals::OwnedObjects;
use hall_signals::standing_cube_spitter::{
    check_and_replace_cubes, cube_spitter_direct_signal as standing_direct_signal,
    cube_spitter_lose_power as standing_lose_power,
    cube_spitter_receive_power as standing_receive_power,
};

fn set(entities: &[u64]) -> EntitySet {
    EntitySet::from_vec(&entities.to_vec())
}

#[test]
fn owned_objects_forget_what_is_gone() {
    let mut owned = OwnedObjects(vec![5, 6, 7]);
    assert!(!owned.retain_existing(&set(&[7, 5, 99])));
    assert_eq!(owned.0, vec![5, 7]);
    assert!(owned.retain_existing(&set(&[])));
    assert_eq!(owned.0, Vec::<u64>::new());
    owned.adopt(8);
    assert_eq!(owned.0, vec![8]);
    assert_eq!(OwnedObjects::new().0, Vec::<u64>::new());
}

#[test]
fn powered_wall_spitter_replaces_lost_cube() {
    let mut owned = OwnedObjects(vec![5]);
    assert_eq!(check_and_replace_wall_cubes(1, &mut owned, &set(&[5])), vec![]);
    assert_eq!(owned.0, vec![5]);
    assert_eq!(
        check_and_replace_wall_cubes(1, &mut owned, &set(&[6])),
        vec![Command::SpawnCube { spitter: 1, lift: 5 }]
    );
    assert_eq!(owned.0, Vec::<u64>::new());
}

#[test]
fn signal_makes_wall_spitter_throw_a_fresh_cube() {
    let mut owned = OwnedObjects(vec![5, 6]);
    assert_eq!(
        cube_spitter_direct_signal(1, Some(10), true, &mut owned),
        vec![
            Command::Flash(10),
            Command::Entomb(5),
            Command::Entomb(6),
            Command::SpawnCube { spitter: 1, lift: 5 }
        ]
    );
    assert_eq!(owned.0, Vec::<u64>::new());
}

#[test]
fn wall_spitter_without_lit_collider_ignores_signal() {
    let mut owned = OwnedObjects(vec![5]);
    assert_eq!(cube_spitter_direct_signal(1, Some(10), false, &mut owned), vec![]);
    assert_eq!(cube_spitter_direct_signal(1, None, true, &mut owned), vec![]);
    assert_eq!(owned.0, vec![5]);
}

#[test]
fn spitter_gaining_power_throws_if_it_has_no_cube() {
    let parts = vec![Part { entity: 10, children: vec![90], has_material: true }];
    let animations = set(&[90]);
    assert_eq!(
        cube_spitter_receive_power(1, &parts, &animations, &OwnedObjects(vec![])),
        vec![Command::Despawn(90), Command::GlowUp(10), Command::SpawnCube { spitter: 1, lift: 5 }]
    );
    assert_eq!(
        cube_spitter_receive_power(1, &parts, &animations, &OwnedObjects(vec![5])),
        vec![Command::Despawn(90), Command::GlowUp(10)]
    );
    assert_eq!(
        cube_spitter_lose_power(&parts, &animations),
        vec![Command::Despawn(90), Command::GlowDown(10)]
    );
}

#[test]
fn wall_spitter_setup() {
    assert_eq!(
        register_cube_spitter_signals(1, false),
        vec![Command::InsertBody { entity: 1, kind: BodyKind::Static }]
    );
    assert_eq!(
        register_cube_spitter_signals(1, true),
        vec![
            Command::InsertBody { entity: 1, kind: BodyKind::Static },
            Command::InsertPowered(1)
        ]
    );
}

#[test]
fn standing_spitter_always_throws_on_signal() {
    let mut owned = OwnedObjects(vec![5]);
    assert_eq!(
        standing_direct_signal(1, &vec![10, 11, 12], &set(&[12, 10]), &mut owned),
        vec![
            Command::Flash(10),
            Command::Flash(12),
            Command::Entomb(5),
            Command::SpawnCube { spitter: 1, lift: 5 }
        ]
    );
    assert_eq!(owned.0, Vec::<u64>::new());
    assert_eq!(
        standing_direct_signal(1, &vec![], &set(&[]), &mut owned),
        vec![Command::SpawnCube { spitter: 1, lift: 5 }]
    );
}

#[test]
fn standing_spitter_follows_wall_spitter_rules() {
    let mut owned = OwnedObjects(vec![5]);
    assert_eq!(
        check_and_replace_cubes(1, &mut owned, &set(&[])),
        vec![Command::SpawnCube { spitter: 1, lift: 10 }]
    );
    let parts = vec![Part { entity: 10, children: vec![], has_material: true }];
    assert_eq!(
        standing_receive_power(1, &parts, &set(&[]), &owned),
        vec![Command::GlowUp(10), Command::SpawnCube { spitter: 1, lift: 10 }]
    );
    assert_eq!(standing_lose_power(&parts, &set(&[])), vec![Command::GlowDown(10)]);
}

#[test]
fn signal_spitter_answers_signal_per_lit_collider() {
    assert_eq!(DIRECT_SIGNAL_DELAY_MS, 1000);
    assert_eq!(
        signal_spitter_direct_signal(1, &vec![10, 11], &set(&[10, 11]), false),
        vec![
            Command::QueueSignal { spitter: 1, delay_ms: 1000, size: 10 },
            Command::Flash(10),
            Command::QueueSignal { spitter: 1, delay_ms: 1000, size: 10 },
            Command::Flash(11)
        ]
    );
    assert_eq!(
        signal_spitter_direct_signal(1, &vec![10, 11], &set(&[11]), true),
        vec![Command::QueueSignal { spitter: 1, delay_ms: 1000, size: 30 }, Command::Flash(11)]
    );
    assert_eq!(signal_spitter_direct_signal(1, &vec![10], &set(&[]), true), vec![]);
}

#[test]
fn powered_signal_spitter_starts_emitting() {
    let emission = ContinuousEmission::new();
    assert_eq!(emission.interval_ms, 1000);
    let parts = vec![Part { entity: 10, children: vec![90], has_material: true }];
    assert_eq!(
        signal_spitter_receive_power(1, &parts, &set(&[90]), &emission, false),
        vec![
            Command::Despawn(90),
            Command::GlowUp(10),
            Command::QueueSignal { spitter: 1, delay_ms: 1000, size: 10 }
        ]
    );
    assert_eq!(
        signal_spitter_receive_power(1, &vec![], &set(&[]), &ContinuousEmission { interval_ms: 250 }, true),
        vec![Command::QueueSignal { spitter: 1, delay_ms: 250, size: 30 }]
    );
}

#[test]
fn unpowered_signal_spitter_drops_queued_signals() {
    let parts = vec![Part { entity: 10, children: vec![90], has_material: true }];
    assert_eq!(
        signal_spitter_lose_power(&parts, &set(&[90]), &vec![10, 200, 201], &set(&[200, 201, 300])),
        vec![
            Command::Despawn(90),
            Command::GlowDown(10),
            Command::Despawn(200),
            Command::Despawn(201)
        ]
    );
}

#[test]
fn continuous_emission_queues_when_nothing_is_pending() {
    let emission = ContinuousEmission::new();
    assert_eq!(
        handle_continuous_signal_emission(1, &emission, false, &vec![10], &set(&[200])),
        vec![Command::QueueSignal { spitter: 1, delay_ms: 1000, size: 10 }]
    );
    assert_eq!(
        handle_continuous_signal_emission(1, &emission, false, &vec![10, 200], &set(&[200])),
        vec![]
    );
    assert_eq!(
        handle_continuous_signal_emission(1, &emission, true, &vec![], &set(&[])),
        vec![Command::QueueSignal { spitter: 1, delay_ms: 1000, size: 30 }]
    );
}
