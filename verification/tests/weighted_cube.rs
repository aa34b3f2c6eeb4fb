use hall_signals::command::Command;
use hall_signals::entity_set::EntitySet;
use hall_signals::glow::Part;
use hall_signals::pressure_plate::Contact;
use hall_signals::weighted_cube::{
    cube_consume_signal, cube_direct_signal, cube_discharge_detection, cube_lose_power,
    cube_receive_power, CubeDischarge, PoweringUp, CUBE_DISCHARGE_RADIUS,
    POWER_ANIMATION_DURATION_SEC,
};

fn set(entities: &[u64]) -> EntitySet {
    EntitySet::from_vec(&entities.to_vec())
}

#[test]
fn cube_constants() {
    assert_eq!(POWER_ANIMATION_DURATION_SEC, 1);
    assert_eq!(CUBE_DISCHARGE_RADIUS, 20);
}

#[test]
fn cube_discharges_into_devices_nearby() {
    let overlapping = vec![
        Contact { collider: 1, body: None },
        Contact { collider: 10, body: Some(1) },
        Contact { collider: 20, body: Some(2) },
        Contact { collider: 30, body: None },
        Contact { collider: 40, body: Some(4) },
        Contact { collider: 50, body: Some(5) },
        Contact { collider: 60, body: Some(6) },
        Contact { collider: 21, body: Some(2) },
    ];
    let commands =
        cube_discharge_detection(1, &overlapping, &set(&[4]), &set(&[5]), &set(&[6]));
    assert_eq!(
        commands,
        vec![
            Command::SendDirectSignal(2),
            Command::SendDirectSignal(30),
            Command::SendDirectSignal(2),
            Command::RemovePowered(1),
            Command::InsertCubeDischarge(1)
        ]
    );
}

#[test]
fn cube_without_takers_keeps_its_power() {
    let overlapping = vec![
        Contact { collider: 1, body: Some(9) },
        Contact { collider: 10, body: Some(1) },
        Contact { collider: 40, body: Some(4) },
    ];
    assert_eq!(
        cube_discharge_detection(1, &overlapping, &set(&[]), &set(&[4]), &set(&[])),
        vec![]
    );
    assert_eq!(cube_discharge_detection(1, &vec![], &set(&[]), &set(&[]), &set(&[])), vec![]);
}

#[test]
fn cube_consumes_a_signal() {
    let signals = set(&[100]);
    assert_eq!(
        cube_consume_signal(100, 10, Some(1), &signals, &set(&[]), &set(&[])),
        vec![Command::SendDirectSignal(1), Command::Despawn(100)]
    );
    assert_eq!(
        cube_consume_signal(100, 10, None, &signals, &set(&[]), &set(&[])),
        vec![Command::SendDirectSignal(10), Command::Despawn(100)]
    );
}

#[test]
fn cube_lets_signal_pass_when_powered_or_cooling() {
    let signals = set(&[100]);
    assert_eq!(cube_consume_signal(100, 10, Some(1), &signals, &set(&[1]), &set(&[])), vec![]);
    assert_eq!(cube_consume_signal(100, 10, Some(1), &signals, &set(&[]), &set(&[1])), vec![]);
    assert_eq!(cube_consume_signal(100, 10, None, &signals, &set(&[10]), &set(&[])), vec![]);
    assert_eq!(cube_consume_signal(101, 10, Some(1), &signals, &set(&[]), &set(&[])), vec![]);
    assert_eq!(
        cube_consume_signal(100, 10, Some(1), &signals, &set(&[10]), &set(&[10])),
        vec![Command::SendDirectSignal(1), Command::Despawn(100)]
    );
}

#[test]
fn direct_signal_powers_an_idle_cube() {
    assert_eq!(cube_direct_signal(1, &set(&[]), &set(&[])), vec![Command::InsertPowered(1)]);
    assert_eq!(cube_direct_signal(1, &set(&[1]), &set(&[])), vec![]);
    assert_eq!(cube_direct_signal(1, &set(&[]), &set(&[1])), vec![]);
}

#[test]
fn powered_cube_glows_and_powers_up() {
    let parts = vec![Part { entity: 10, children: vec![90, 91], has_material: true }];
    let animations = set(&[91]);
    assert_eq!(
        cube_receive_power(1, false, &parts, &animations),
        vec![Command::InsertPoweringUp(1), Command::Despawn(91), Command::GlowUp(10)]
    );
    assert_eq!(
        cube_receive_power(1, true, &parts, &animations),
        vec![Command::Despawn(91), Command::GlowUp(10)]
    );
    assert_eq!(
        cube_lose_power(&parts, &animations),
        vec![Command::Despawn(91), Command::GlowDown(10)]
    );
}

#[test]
fn discharge_cooldown_lasts_a_second() {
    let mut cooldown = CubeDischarge::new();
    assert_eq!(cooldown.timer.duration_ns, 1_000_000_000);
    assert_eq!(cooldown.update_cube_discharge_timers(1, 999_999_999, true), vec![]);
    assert_eq!(
        cooldown.update_cube_discharge_timers(1, 1, true),
        vec![Command::RemoveCubeDischarge(1), Command::InsertPowered(1)]
    );
    let mut cooldown = CubeDischarge::new();
    assert_eq!(
        cooldown.update_cube_discharge_timers(1, 1_000_000_000, false),
        vec![Command::RemoveCubeDischarge(1)]
    );
}

#[test]
fn powering_up_lasts_a_second() {
    let mut powering = PoweringUp::new();
    assert_eq!(powering.update_powering_up_timers(1, 500_000_000), vec![]);
    assert_eq!(
        powering.update_powering_up_timers(1, 500_000_000),
        vec![Command::RemovePoweringUp(1)]
    );
}
