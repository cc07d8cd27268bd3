//! Edge-triggered input semantics over scripted raw press sequences.

use tic80::input_edge::{btnp_history, ButtonTracker};

#[test]
fn sentinel_reports_transitions_only() {
    let raw = vec![false, true, true, false, true, true, true];
    let out = btnp_history(&raw, -1, -1);
    assert_eq!(out, vec![false, true, false, false, true, false, false]);
}

#[test]
fn sentinel_period_alone_suppresses_repeat() {
    let raw = vec![true, true, true, true];
    let out = btnp_history(&raw, 1, -1);
    assert_eq!(out, vec![true, false, false, false]);
}

#[test]
fn hold_two_period_one_fires_on_frames_one_and_three() {
    // Button held down on three consecutive frames with hold 2 and
    // period 1: pressed on the initial transition, not pressed while
    // still inside the hold window, pressed again once the hold has
    // elapsed and the repeat fires.
    let raw = vec![true, true, true];
    let out = btnp_history(&raw, 2, 1);
    assert_eq!(out, vec![true, false, true]);
}

#[test]
fn hold_and_period_fire_every_period_after_hold() {
    let raw = vec![true; 40];
    let out = btnp_history(&raw, 6, 30);
    let expected: Vec<bool> = (0..40).map(|t| t == 0 || t == 6 || t == 36).collect();
    assert_eq!(out, expected);
}

#[test]
fn release_resets_the_run() {
    let raw = vec![true, true, true, false, true, true, true];
    let out = btnp_history(&raw, 2, 1);
    assert_eq!(out, vec![true, false, true, false, true, false, true]);
}

#[test]
fn tracker_counts_consecutive_down_frames() {
    let mut t = ButtonTracker::new();
    assert!(t.step(true, -1, -1));
    assert_eq!(t.run, 1);
    assert!(!t.step(true, -1, -1));
    assert_eq!(t.run, 2);
    assert!(!t.step(false, -1, -1));
    assert_eq!(t.run, 0);
    assert!(t.step(true, -1, -1));
}
