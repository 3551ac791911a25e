use viber_alerts::scheduler::{hour_of_day, TryTillSuccess};

const DAY_N: i64 = 1715212800; // 2024-05-09 00:00 UTC
const HOUR: i64 = 3600;
const DAY: i64 = 86400;

fn run(s: &mut TryTillSuccess, from: u8, to: u8, now: i64, result: bool) -> u32 {
    let mut calls: u32 = 0;
    s.daily_at(from, to, now, || {
        calls += 1;
        result
    });
    calls
}

#[test]
fn new_scheduler_never_succeeded() {
    assert_eq!(TryTillSuccess::new().last_success, 0);
}

#[test]
fn hour_of_day_in_utc() {
    assert_eq!(hour_of_day(0), 0);
    assert_eq!(hour_of_day(DAY_N + 15 * HOUR + 59 * 60), 15);
    assert_eq!(hour_of_day(DAY_N + DAY - 1), 23);
    assert_eq!(hour_of_day(-1), 23);
    assert_eq!(hour_of_day(-DAY), 0);
}

#[test]
fn scenario_in_window_runs_and_records_success() {
    let mut s = TryTillSuccess::new();
    let now = DAY_N + 15 * HOUR;
    assert_eq!(run(&mut s, 14, 20, now, true), 1);
    assert_eq!(s.last_success, now);
}

#[test]
fn scenario_after_window_does_not_run() {
    let mut s = TryTillSuccess::new();
    let now = DAY_N + 21 * HOUR;
    assert_eq!(run(&mut s, 14, 20, now, true), 0);
    assert_eq!(s.last_success, 0);
}

#[test]
fn window_boundary_hours_are_excluded() {
    let mut s = TryTillSuccess::new();
    assert_eq!(run(&mut s, 14, 20, DAY_N + 14 * HOUR + 30 * 60, true), 0);
    assert_eq!(run(&mut s, 14, 20, DAY_N + 20 * HOUR, true), 0);
    assert_eq!(run(&mut s, 14, 20, DAY_N + 19 * HOUR + 59 * 60, true), 1);
}

#[test]
fn failure_keeps_last_success_and_retries() {
    let mut s = TryTillSuccess::new();
    let now = DAY_N + 15 * HOUR;
    assert_eq!(run(&mut s, 14, 20, now, false), 1);
    assert_eq!(s.last_success, 0);
    assert_eq!(run(&mut s, 14, 20, now + 60, false), 1);
    assert_eq!(s.last_success, 0);
    assert_eq!(run(&mut s, 14, 20, now + 120, true), 1);
    assert_eq!(s.last_success, now + 120);
}

#[test]
fn success_blocks_until_next_day() {
    let mut s = TryTillSuccess::new();
    let now = DAY_N + 15 * HOUR;
    assert_eq!(run(&mut s, 14, 20, now, true), 1);
    assert_eq!(run(&mut s, 14, 20, now + HOUR, true), 0);
    assert_eq!(run(&mut s, 14, 20, DAY_N + 19 * HOUR + 59 * 60, true), 0);
    assert_eq!(s.last_success, now);
    assert_eq!(run(&mut s, 14, 20, now + DAY, true), 1);
    assert_eq!(s.last_success, now + DAY);
}

#[test]
fn gap_threshold_is_complement_of_window() {
    // window (14, 20): 18 hours must pass after a success
    let mut s = TryTillSuccess { last_success: DAY_N + 15 * HOUR };
    assert!(!s.is_due(14, 20, DAY_N + 15 * HOUR + 18 * HOUR));
    assert!(s.is_due(14, 20, DAY_N + 15 * HOUR + 18 * HOUR + DAY - 18 * HOUR));
    s.last_success = DAY_N + 19 * HOUR;
    // next day 13:00 is outside, 15:00 is 20 hours later
    assert!(!s.is_due(14, 20, DAY_N + DAY + 13 * HOUR));
    assert!(s.is_due(14, 20, DAY_N + DAY + 15 * HOUR));
    // exactly 18 hours is not enough
    s.last_success = DAY_N - 3 * HOUR;
    assert!(!s.is_due(14, 20, DAY_N + 15 * HOUR));
    assert!(s.is_due(14, 20, DAY_N + 15 * HOUR + 1));
}

#[test]
fn invalid_window_never_runs() {
    let mut s = TryTillSuccess::new();
    assert_eq!(run(&mut s, 20, 14, DAY_N + 17 * HOUR, true), 0);
    assert_eq!(run(&mut s, 15, 15, DAY_N + 15 * HOUR, true), 0);
    assert_eq!(run(&mut s, 3, 30, DAY_N + 10 * HOUR, true), 0);
    assert_eq!(s.last_success, 0);
}

#[test]
fn price_window_runs_between_three_and_six() {
    let mut s = TryTillSuccess::new();
    assert_eq!(run(&mut s, 3, 6, DAY_N + 3 * HOUR, true), 0);
    assert_eq!(run(&mut s, 3, 6, DAY_N + 4 * HOUR, true), 1);
    assert_eq!(s.last_success, DAY_N + 4 * HOUR);
}

#[test]
fn daily_uses_current_time() {
    let mut s = TryTillSuccess::new();
    let mut calls: u32 = 0;
    s.daily(0, 24, || {
        calls += 1;
        true
    });
    // window (0, 24) is open all hours but 0; the clock decides
    assert!(calls <= 1);
    assert!(s.last_success == 0 || calls == 1);
    assert!(s.last_success == 0 || s.last_success > DAY_N);
}
