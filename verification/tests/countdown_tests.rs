use ebb::countdown::step_dwell;
use ebb::countdown::CountdownMode;
use ebb::countdown::CountdownTimer;
use ebb::countdown::TOTAL_STEP_MS;

#[test]
fn accelerated_dwells_fall_from_1800_to_1300() {
    let mut prev = u64::MAX;
    for i in 0..10 {
        let d = step_dwell(true, i);
        assert!(d < prev, "dwell not strictly decreasing at step {}", i);
        prev = d;
    }
    assert_eq!(step_dwell(true, 0), 1800);
    assert_eq!(step_dwell(true, 9), 1300);
}

#[test]
fn decelerated_dwells_rise_from_1300_to_1800() {
    let mut prev = 0u64;
    for i in 0..10 {
        let d = step_dwell(false, i);
        assert!(d > prev, "dwell not strictly increasing at step {}", i);
        prev = d;
    }
    assert_eq!(step_dwell(false, 0), 1300);
    assert_eq!(step_dwell(false, 9), 1800);
}

#[test]
fn dwell_totals_are_15500_ms_in_both_directions() {
    let accel: u64 = (0..10).map(|i| step_dwell(true, i)).sum();
    let decel: u64 = (0..10).map(|i| step_dwell(false, i)).sum();
    assert_eq!(accel, 15500);
    assert_eq!(decel, 15500);
    assert_eq!(TOTAL_STEP_MS, 15500);
}

#[test]
fn decelerated_mirrors_accelerated() {
    for i in 0..10 {
        assert_eq!(step_dwell(false, i), step_dwell(true, 9 - i));
    }
}

#[test]
fn normal_mode_counts_whole_seconds_down() {
    let mut t = CountdownTimer::new(10_000, CountdownMode::Normal);
    t.start();
    let mut displays = Vec::new();
    for _ in 0..10 {
        if let Some(n) = t.tick(1000) {
            displays.push(n);
        }
    }
    assert_eq!(displays, vec![9, 8, 7, 6, 5, 4, 3, 2, 1, 0]);
}

#[test]
fn normal_mode_finish_edge_fires_exactly_once() {
    let mut t = CountdownTimer::new(10_000, CountdownMode::Normal);
    t.start();
    let mut finishes = 0;
    for _ in 0..12 {
        t.tick(1000);
        if t.take_finished() {
            finishes += 1;
        }
    }
    assert_eq!(finishes, 1);
    assert!(!t.is_active);
}

#[test]
fn accelerated_mode_steps_through_numbers() {
    let mut t = CountdownTimer::new(10_000, CountdownMode::Accelerated);
    t.start();
    assert_eq!(t.tick(100), Some(10));
    assert_eq!(t.tick(1700), Some(9));
    assert_eq!(t.tick(100), None);
    let mut finished = false;
    for _ in 0..14 {
        t.tick(1000);
        if t.take_finished() {
            finished = true;
        }
    }
    assert!(finished, "accelerated run must finish after 15.5 s");
    assert!(!t.is_active);
}

#[test]
fn inactive_timer_ignores_ticks() {
    let mut t = CountdownTimer::new(5_000, CountdownMode::Normal);
    assert_eq!(t.tick(1000), None);
    assert_eq!(t.total_elapsed_ms, 0);
    assert!(!t.take_finished());
}

#[test]
fn start_rearms_after_finish() {
    let mut t = CountdownTimer::new(2_000, CountdownMode::Normal);
    t.start();
    t.tick(2000);
    assert!(t.take_finished());
    t.start();
    assert!(t.is_active);
    assert_eq!(t.total_elapsed_ms, 0);
    assert!(!t.just_finished);
}

#[test]
fn remaining_reports_full_duration_when_inactive() {
    let mut t = CountdownTimer::new(7_000, CountdownMode::Normal);
    assert_eq!(t.remaining_ms(), 7_000);
    assert_eq!(t.remaining_seconds(), 7);
    t.start();
    t.tick(3_000);
    assert_eq!(t.remaining_ms(), 4_000);
    t.tick(500);
    assert_eq!(t.remaining_seconds(), 4, "partial seconds round up");
}
