use sigma_racer_vehicle::schedule::{
    Heartbeat, Publish, Schedule, HEARTBEAT_PERIOD_NS, SAMPLE_PERIOD_NS,
};

const MS: u128 = 1_000_000;

#[test]
fn periods_are_50ms_and_1s() {
    assert_eq!(SAMPLE_PERIOD_NS, 50 * MS);
    assert_eq!(HEARTBEAT_PERIOD_NS, 1000 * MS);
}

#[test]
fn sample_due_after_50ms() {
    let s = Schedule::new(1_000 * MS);
    assert!(!s.sample_due(1_000 * MS));
    assert!(!s.sample_due(1_049 * MS + 999_999));
    assert!(s.sample_due(1_050 * MS));
    assert!(!s.sample_due(10 * MS));
}

#[test]
fn sampled_restarts_sample_period() {
    let mut s = Schedule::new(0);
    s.sampled(60 * MS);
    assert!(!s.sample_due(100 * MS));
    assert!(s.sample_due(110 * MS));
}

#[test]
fn sequence_numbers_count_up_from_one() {
    let mut s = Schedule::new(0);
    assert_eq!(s.seq(), 0);
    assert_eq!(s.next_seq(), 1);
    assert_eq!(s.next_seq(), 2);
    assert_eq!(s.seq(), 2);
}

#[test]
fn changed_state_publishes_update() {
    let mut s = Schedule::new(0);
    assert_eq!(s.publish(false, false, 10 * MS, 1000), Publish::Update(1));
    assert_eq!(s.publish(true, true, 20 * MS, 1000), Publish::Update(2));
}

#[test]
fn unchanged_state_is_quiet_until_snapshot_interval() {
    let mut s = Schedule::new(0);
    assert_eq!(s.publish(true, false, 999 * MS, 1000), Publish::Quiet);
    assert_eq!(s.seq(), 0);
    assert_eq!(s.publish(true, false, 1000 * MS, 1000), Publish::Snapshot(1));
}

#[test]
fn publishing_restarts_snapshot_interval() {
    let mut s = Schedule::new(0);
    let p = s.publish(false, false, 900 * MS, 1000);
    assert_eq!(p, Publish::Update(1));
    s.published(p, 900 * MS);
    assert_eq!(s.publish(true, false, 1500 * MS, 1000), Publish::Quiet);
    let p = s.publish(true, false, 1900 * MS, 1000);
    assert_eq!(p, Publish::Snapshot(2));
    s.published(p, 1900 * MS);
    assert_eq!(s.publish(true, false, 2000 * MS, 1000), Publish::Quiet);
}

#[test]
fn quiet_sample_leaves_interval_running() {
    let mut s = Schedule::new(0);
    let p = s.publish(true, false, 500 * MS, 1000);
    assert_eq!(p, Publish::Quiet);
    s.published(p, 500 * MS);
    assert_eq!(s.publish(true, false, 1000 * MS, 1000), Publish::Snapshot(1));
}

#[test]
fn heartbeat_every_second_with_uptime() {
    let mut s = Schedule::new(5 * MS);
    assert!(!s.heartbeat_due(1004 * MS));
    assert!(s.heartbeat_due(1005 * MS));
    assert_eq!(s.heartbeat(1505 * MS + 999_999), Heartbeat { seq: 1, uptime_ms: 1500 });
    s.heartbeat_sent(1506 * MS);
    assert!(!s.heartbeat_due(2505 * MS));
    assert!(s.heartbeat_due(2506 * MS));
    assert_eq!(s.heartbeat(2506 * MS).seq, 2);
}

#[test]
fn every_message_kind_shares_one_sequence() {
    let mut s = Schedule::new(0);
    let greet = s.next_seq();
    let update = s.publish(false, false, 50 * MS, 1000);
    let beat = s.heartbeat(1000 * MS);
    let event = s.next_seq();
    assert_eq!(greet, 1);
    assert_eq!(update, Publish::Update(2));
    assert_eq!(beat.seq, 3);
    assert_eq!(event, 4);
}

use sigma_racer_vehicle::schedule::Stage;

#[test]
fn pass_accepts_then_samples_then_beats_then_sleeps() {
    let s = Schedule::new(0);
    assert_eq!(s.next_stage(Stage::Accept, 10 * MS), Stage::Sleep);
    assert_eq!(s.next_stage(Stage::Accept, 50 * MS), Stage::Sample);
    assert_eq!(s.next_stage(Stage::Sample, 50 * MS), Stage::Sleep);
    assert_eq!(s.next_stage(Stage::Accept, 1000 * MS), Stage::Sample);
    assert_eq!(s.next_stage(Stage::Sample, 1000 * MS), Stage::Heartbeat);
    assert_eq!(s.next_stage(Stage::Heartbeat, 1000 * MS), Stage::Sleep);
    assert_eq!(s.next_stage(Stage::Sleep, 1000 * MS), Stage::Accept);
}

#[test]
fn heartbeat_without_sample_follows_accept() {
    let mut s = Schedule::new(0);
    s.sampled(990 * MS);
    assert_eq!(s.next_stage(Stage::Accept, 1000 * MS), Stage::Heartbeat);
}
