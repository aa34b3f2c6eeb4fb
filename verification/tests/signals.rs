use hall_signals::command::Command;
use hall_signals::entity_set::EntitySet;
use hall_signals::signals::{
    default_signal_collisions, launch_lift, spit_size, DelayOutcome, DespawnAfter,
    SignalAfterDelay, IMMOBILE_SPIT_SIZE, MAX_SIGNAL_LIFETIME_SECS, MAX_SIGNAL_TRAVEL_DIST,
    STANDARD_SPIT_SIZE,
};

#[test]
fn signal_constants() {
    assert_eq!(MAX_SIGNAL_TRAVEL_DIST, 500);
    assert_eq!(MAX_SIGNAL_LIFETIME_SECS, 10);
    assert_eq!(STANDARD_SPIT_SIZE, 10);
    assert_eq!(IMMOBILE_SPIT_SIZE, 30);
}

#[test]
fn spit_size_by_mobility() {
    assert_eq!(spit_size(true), 30);
    assert_eq!(spit_size(false), 10);
}

#[test]
fn launch_lift_by_size() {
    assert_eq!(launch_lift(10), 10);
    assert_eq!(launch_lift(11), 20);
    assert_eq!(launch_lift(30), 20);
    assert_eq!(launch_lift(0), 10);
}

#[test]
fn queued_signal_waits_for_its_delay() {
    let queued = SignalAfterDelay { delay_ms: 1000, spawn_time_ns: 5_000_000_000, signal_size: 10 };
    assert_eq!(queued.signal_after_delay(5_000_000_000, true), DelayOutcome::Waiting);
    assert_eq!(queued.signal_after_delay(5_999_999_999, true), DelayOutcome::Waiting);
    assert_eq!(
        queued.signal_after_delay(6_000_000_000, true),
        DelayOutcome::Launch { lift: 10, size: 10 }
    );
    assert_eq!(
        queued.signal_after_delay(9_000_000_000, true),
        DelayOutcome::Launch { lift: 10, size: 10 }
    );
}

#[test]
fn queued_signal_needs_a_placed_spitter() {
    let queued = SignalAfterDelay { delay_ms: 0, spawn_time_ns: 0, signal_size: 30 };
    assert_eq!(queued.signal_after_delay(0, false), DelayOutcome::Waiting);
    assert_eq!(queued.signal_after_delay(0, true), DelayOutcome::Launch { lift: 20, size: 30 });
}

#[test]
fn queued_signal_with_largest_delay() {
    let queued = SignalAfterDelay { delay_ms: u32::MAX, spawn_time_ns: 0, signal_size: 10 };
    let due = u32::MAX as u64 * 1_000_000;
    assert_eq!(queued.signal_after_delay(due - 1, true), DelayOutcome::Waiting);
    assert_eq!(queued.signal_after_delay(due, true), DelayOutcome::Launch { lift: 10, size: 10 });
}

#[test]
fn signal_is_consumed_by_unpowered_body() {
    let signals = EntitySet::from_vec(&vec![100, 101]);
    let powered = EntitySet::from_vec(&vec![7]);
    assert_eq!(
        default_signal_collisions(Some(5), 100, &signals, &powered),
        vec![Command::SendDirectSignal(5), Command::Despawn(100)]
    );
}

#[test]
fn signal_passes_powered_body_and_non_signals() {
    let signals = EntitySet::from_vec(&vec![100, 101]);
    let powered = EntitySet::from_vec(&vec![7, 101]);
    assert_eq!(default_signal_collisions(Some(7), 100, &signals, &powered), vec![]);
    assert_eq!(default_signal_collisions(Some(5), 55, &signals, &powered), vec![]);
    assert_eq!(default_signal_collisions(Some(5), 101, &signals, &powered), vec![]);
    assert_eq!(default_signal_collisions(None, 100, &signals, &powered), vec![]);
}

#[test]
fn despawn_after_expires_once_time_is_up() {
    let mut d = DespawnAfter::new(1_000);
    assert!(!d.despawn_after_system(999));
    assert!(d.despawn_after_system(1));
    assert!(d.despawn_after_system(1));
}

#[test]
fn signal_lifetime_is_ten_seconds() {
    let mut d = DespawnAfter::for_signal();
    assert_eq!(d.timer.duration_ns, 10_000_000_000);
    assert!(!d.despawn_after_system(9_999_999_999));
    assert!(d.despawn_after_system(1));
}
