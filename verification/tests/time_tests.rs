use simhost::time::EmulatedTime;
use simhost::time::SimulationTime;
use simhost::time::NANOS_PER_MICRO;
use simhost::time::NANOS_PER_MILLI;
use simhost::time::NANOS_PER_SEC;
use simhost::time::SIMULATION_START_NANOS;

#[test]
fn simulation_time_units() {
    assert_eq!(NANOS_PER_MICRO, 1_000);
    assert_eq!(NANOS_PER_MILLI, 1_000_000);
    assert_eq!(NANOS_PER_SEC, 1_000_000_000);
    assert_eq!(SimulationTime::zero().as_nanos(), 0);
    assert_eq!(SimulationTime::maximum().as_nanos(), u64::MAX);
    assert_eq!(SimulationTime::from_nanos(7).as_nanos(), 7);
    assert_eq!(SimulationTime::try_from_micros(3).unwrap().as_nanos(), 3_000);
    assert_eq!(SimulationTime::try_from_millis(3).unwrap().as_nanos(), 3_000_000);
    assert_eq!(SimulationTime::try_from_secs(3).unwrap().as_nanos(), 3_000_000_000);
}

#[test]
fn simulation_time_conversions_round_down() {
    let t = SimulationTime::from_nanos(2_999_999_999);
    assert_eq!(t.as_secs(), 2);
    assert_eq!(t.as_millis(), 2_999);
    assert_eq!(t.as_micros(), 2_999_999);
    assert_eq!(t.as_nanos(), 2_999_999_999);
}

#[test]
fn simulation_time_rejects_what_does_not_fit() {
    assert!(SimulationTime::try_from_secs(u64::MAX).is_none());
    assert!(SimulationTime::try_from_millis(u64::MAX / 1_000).is_none());
    assert!(SimulationTime::try_from_micros(u64::MAX / 999).is_none());
    let greatest_secs = u64::MAX / NANOS_PER_SEC;
    assert_eq!(
        SimulationTime::try_from_secs(greatest_secs).unwrap().as_nanos(),
        greatest_secs * NANOS_PER_SEC
    );
    assert!(SimulationTime::try_from_secs(greatest_secs + 1).is_none());
}

#[test]
fn simulation_time_zero_and_positive() {
    assert!(SimulationTime::zero().is_zero());
    assert!(!SimulationTime::zero().is_positive());
    assert!(SimulationTime::from_nanos(1).is_positive());
    assert!(!SimulationTime::from_nanos(1).is_zero());
}

#[test]
fn simulation_time_checked_arithmetic() {
    let a = SimulationTime::from_nanos(70);
    let b = SimulationTime::from_nanos(30);
    assert_eq!(a.checked_add(b), Some(SimulationTime::from_nanos(100)));
    assert_eq!(a.checked_sub(b), Some(SimulationTime::from_nanos(40)));
    assert_eq!(b.checked_sub(a), None);
    assert_eq!(a.checked_sub(a), Some(SimulationTime::zero()));
    assert_eq!(SimulationTime::maximum().checked_add(SimulationTime::from_nanos(1)), None);
    assert_eq!(
        SimulationTime::maximum().checked_add(SimulationTime::zero()),
        Some(SimulationTime::maximum())
    );
    assert_eq!(a.checked_mul(3), Some(SimulationTime::from_nanos(210)));
    assert_eq!(a.checked_mul(0), Some(SimulationTime::zero()));
    assert_eq!(SimulationTime::maximum().checked_mul(2), None);
    assert_eq!(a.checked_rem(b), Some(SimulationTime::from_nanos(10)));
    assert_eq!(a.checked_rem(SimulationTime::zero()), None);
}

#[test]
fn simulation_time_saturating_arithmetic() {
    let a = SimulationTime::from_nanos(70);
    let b = SimulationTime::from_nanos(30);
    assert_eq!(a.saturating_add(b), SimulationTime::from_nanos(100));
    assert_eq!(SimulationTime::maximum().saturating_add(b), SimulationTime::maximum());
    assert_eq!(a.saturating_sub(b), SimulationTime::from_nanos(40));
    assert_eq!(b.saturating_sub(a), SimulationTime::zero());
}

#[test]
fn simulation_time_is_ordered_by_length() {
    assert!(SimulationTime::from_nanos(1) < SimulationTime::from_nanos(2));
    assert!(SimulationTime::from_nanos(2) > SimulationTime::zero());
    assert_eq!(SimulationTime::from_nanos(5), SimulationTime::from_nanos(5));
    assert_ne!(SimulationTime::from_nanos(5), SimulationTime::from_nanos(6));
}

#[test]
fn emulated_time_landmarks() {
    assert_eq!(EmulatedTime::unix_epoch().as_nanos_since_epoch(), 0);
    assert_eq!(EmulatedTime::minimum().as_nanos_since_epoch(), 0);
    assert_eq!(EmulatedTime::maximum().as_nanos_since_epoch(), u64::MAX);
    assert_eq!(SIMULATION_START_NANOS, 946_684_800 * NANOS_PER_SEC);
    assert_eq!(
        EmulatedTime::simulation_start().as_nanos_since_epoch(),
        946_684_800_000_000_000
    );
    assert_eq!(EmulatedTime::from_nanos_since_epoch(9).as_nanos_since_epoch(), 9);
}

#[test]
fn emulated_time_from_and_to_simulation_time() {
    let elapsed = SimulationTime::from_nanos(5);
    let t = EmulatedTime::from_abs_simtime(elapsed).unwrap();
    assert_eq!(t.as_nanos_since_epoch(), 946_684_800_000_000_005);
    assert_eq!(t.to_abs_simtime(), Some(elapsed));
    assert_eq!(EmulatedTime::simulation_start().to_abs_simtime(), Some(SimulationTime::zero()));
    assert_eq!(EmulatedTime::unix_epoch().to_abs_simtime(), None);
    assert_eq!(EmulatedTime::from_abs_simtime(SimulationTime::maximum()), None);
    let most = SimulationTime::from_nanos(u64::MAX - SIMULATION_START_NANOS);
    assert_eq!(EmulatedTime::from_abs_simtime(most), Some(EmulatedTime::maximum()));
}

#[test]
fn emulated_time_durations() {
    let early = EmulatedTime::from_nanos_since_epoch(100);
    let late = EmulatedTime::from_nanos_since_epoch(250);
    assert_eq!(late.duration_since(&early), SimulationTime::from_nanos(150));
    assert_eq!(late.duration_since(&late), SimulationTime::zero());
    assert_eq!(late.checked_duration_since(&early), Some(SimulationTime::from_nanos(150)));
    assert_eq!(early.checked_duration_since(&late), None);
    assert_eq!(late.saturating_duration_since(&early), SimulationTime::from_nanos(150));
    assert_eq!(early.saturating_duration_since(&late), SimulationTime::zero());
}

#[test]
fn emulated_time_moves_by_spans() {
    let t = EmulatedTime::from_nanos_since_epoch(100);
    let span = SimulationTime::from_nanos(30);
    assert_eq!(t.checked_add(span), Some(EmulatedTime::from_nanos_since_epoch(130)));
    assert_eq!(t.checked_sub(span), Some(EmulatedTime::from_nanos_since_epoch(70)));
    assert_eq!(t.checked_sub(SimulationTime::from_nanos(101)), None);
    assert_eq!(EmulatedTime::maximum().checked_add(SimulationTime::from_nanos(1)), None);
    assert_eq!(t.saturating_add(span), EmulatedTime::from_nanos_since_epoch(130));
    assert_eq!(EmulatedTime::maximum().saturating_add(span), EmulatedTime::maximum());
    assert_eq!(t.saturating_sub(span), EmulatedTime::from_nanos_since_epoch(70));
    assert_eq!(t.saturating_sub(SimulationTime::from_nanos(101)), EmulatedTime::minimum());
}

#[test]
fn emulated_time_is_ordered_by_instant() {
    assert!(EmulatedTime::from_nanos_since_epoch(1) < EmulatedTime::from_nanos_since_epoch(2));
    assert!(EmulatedTime::simulation_start() > EmulatedTime::unix_epoch());
    assert_eq!(EmulatedTime::minimum(), EmulatedTime::unix_epoch());
}
