use sigma_racer_vehicle::can_log::{log_target, log_timestamp_us};
use sigma_racer_vehicle::liveness::{live_since, LIVE_WINDOW_NS};

#[test]
fn live_within_500ms() {
    assert_eq!(LIVE_WINDOW_NS, 500_000_000);
    assert!(live_since(Some(0)));
    assert!(live_since(Some(499_999_999)));
    assert!(!live_since(Some(500_000_000)));
    assert!(!live_since(Some(60_000_000_000)));
}

#[test]
fn never_received_is_not_live() {
    assert!(!live_since(None));
}

#[test]
fn log_target_needs_non_empty_path() {
    assert_eq!(log_target(Some("/var/log/can.mf4".to_string())), Some("/var/log/can.mf4".to_string()));
    assert_eq!(log_target(Some(String::new())), None);
    assert_eq!(log_target(None), None);
}

#[test]
fn log_timestamp_wraps_to_64_bits() {
    assert_eq!(log_timestamp_us(0), 0);
    assert_eq!(log_timestamp_us(1_234_567), 1_234_567);
    assert_eq!(log_timestamp_us(u64::MAX as u128), u64::MAX);
    assert_eq!(log_timestamp_us(u64::MAX as u128 + 6), 5);
}
