use bevy_kot::fps_tracker::{FpsTracker, FPS_TRACKER_NUM_RECORDS};
use std::time::Duration;

/// A frame delta in seconds as the nanoseconds the tracker records.
fn ns(delta: f32) -> u64 {
    (delta * 1_000_000_000.0) as u64
}

fn average_delta_seconds(tracker: &FpsTracker) -> f32 {
    (tracker.average_delta_nanoseconds() as f32) / 1_000_000_000.0
}

fn check_expected(tracker: &FpsTracker, expected_avg_delta_secs: f32, expected_fps: u16) -> bool {
    if average_delta_seconds(tracker) != expected_avg_delta_secs {
        println!("avg delta: {}", average_delta_seconds(tracker));
        return false;
    }
    if tracker.fps() != expected_fps {
        println!("fps: {}", tracker.fps());
        return false;
    }
    true
}

#[test]
fn fps_tracker_basic() {
    // 1. zero records
    let mut tracker = FpsTracker::new(0);

    assert!(check_expected(&tracker, 0f32, 0u16));
    tracker.update(ns(0.1), Duration::from_secs(1));
    assert!(check_expected(&tracker, 0f32, 0u16));

    // 2. one record
    let mut tracker = FpsTracker::new(1);

    assert!(check_expected(&tracker, 0f32, 0u16));
    tracker.update(ns(0.1), Duration::from_secs(1));
    assert!(check_expected(&tracker, 0.1, 10u16));
    tracker.update(ns(0.2), Duration::from_secs(1));
    assert!(check_expected(&tracker, 0.2, 5u16));

    // 3. two records
    let mut tracker = FpsTracker::new(2);

    assert!(check_expected(&tracker, 0f32, 0u16));
    tracker.update(ns(0.05), Duration::from_secs(1));
    assert!(check_expected(&tracker, 0.05, 20u16));
    tracker.update(ns(0.15), Duration::from_secs(1));
    assert!(check_expected(&tracker, 0.1, 10u16));
    tracker.update(ns(0.10), Duration::from_secs(1));
    assert!(check_expected(&tracker, 0.25 / 2.0, 8u16));
}

#[test]
fn fps_tracker_keeps_last_records_and_times() {
    let mut tracker = FpsTracker::new(3);
    assert_eq!(tracker.previous_time(), Duration::from_secs(0));
    assert_eq!(tracker.current_time(), Duration::from_secs(0));
    for (i, d) in [10u64, 20, 30, 40, 50].iter().enumerate() {
        tracker.update(*d, Duration::from_secs(i as u64 + 1));
    }
    // records 30, 40, 50
    assert_eq!(tracker.total_delta_nanoseconds(), 120);
    assert_eq!(tracker.average_delta_nanoseconds(), 40);
    assert_eq!(tracker.fps(), 25_000_000u64 as u16);
    assert_eq!(tracker.previous_time(), Duration::from_secs(4));
    assert_eq!(tracker.current_time(), Duration::from_secs(5));
}

#[test]
fn fps_tracker_average_truncates() {
    let mut tracker = FpsTracker::new(FPS_TRACKER_NUM_RECORDS);
    tracker.update(1, Duration::from_secs(1));
    tracker.update(2, Duration::from_secs(2));
    assert_eq!(tracker.average_delta_nanoseconds(), 1);
    // one second over a 1 ns average, truncated to 16 bits
    assert_eq!(tracker.fps(), (1_000_000_000u64 % 65536) as u16);
    assert_eq!(FPS_TRACKER_NUM_RECORDS, 30);
}

#[test]
fn fps_tracker_sixty_fps() {
    let mut tracker = FpsTracker::new(FPS_TRACKER_NUM_RECORDS);
    for i in 0..40u64 {
        tracker.update(16_666_667, Duration::from_secs(i));
    }
    assert_eq!(tracker.average_delta_nanoseconds(), 16_666_667);
    assert_eq!(tracker.fps(), 59);
    assert_eq!(tracker.total_delta_nanoseconds(), 30 * 16_666_667);
}
