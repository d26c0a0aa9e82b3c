use overlay_runtime::input::{
    classify_key_state, key_held, key_pressed, KeyState, OverlayActiveTracker, StyleChange,
};
use overlay_runtime::scheduler::{target_interval_from_fps, FrameClock};

#[test]
fn arbitration_toggles_exactly_once_per_change() {
    let mut t = OverlayActiveTracker::new();
    assert!(t.active);
    // Bring the state to inactive first.
    assert!(t.update(false).is_some());

    // want = false, false, true, true, false: exactly two style changes.
    let wants = [false, false, true, true, false];
    let mut changes = 0;
    for w in wants {
        if t.update(w).is_some() {
            changes += 1;
        }
    }
    assert_eq!(changes, 2);
    assert!(!t.active);
}

#[test]
fn activation_clears_pass_through_and_requests_focus() {
    let mut t = OverlayActiveTracker::new();
    t.update(false);
    let change = t.update(true).unwrap();
    assert_eq!(
        change,
        StyleChange { input_transparent: false, no_activate: false, request_focus: true }
    );
}

#[test]
fn deactivation_sets_pass_through_without_focus() {
    let mut t = OverlayActiveTracker::new();
    let change = t.update(false).unwrap();
    assert_eq!(
        change,
        StyleChange { input_transparent: true, no_activate: true, request_focus: false }
    );
}

#[test]
fn unchanged_wish_never_touches_styles() {
    let mut t = OverlayActiveTracker::new();
    assert_eq!(t.update(true), None);
    assert_eq!(t.update(true), None);
    assert!(t.active);
}

#[test]
fn key_state_classification() {
    assert_eq!(classify_key_state(0x8001), KeyState::Down);
    assert_eq!(classify_key_state(0x8000), KeyState::Down);
    assert_eq!(classify_key_state(0), KeyState::Up);
    assert_eq!(classify_key_state(0x0001), KeyState::Unknown);
    assert!(key_pressed(0x8001));
    assert!(!key_pressed(0x8000));
    assert!(key_held(0x0001));
    assert!(!key_held(0));
}

#[test]
fn pacing_sleeps_the_remainder_of_the_interval() {
    let mut clock = FrameClock::new(1000, 16);
    assert_eq!(clock.frame_delta(1002), 2);
    // Tick body took 2 ms of the 16 ms interval: sleep the other 14.
    let sleep = clock.pacing_sleep(1002);
    assert_eq!(sleep, 14);
    // The tick then spans body + sleep = 16 ms >= 14 ms.
    assert!(2 + sleep >= 14);
    clock.tick_completed(1002 + sleep);
}

#[test]
fn overlong_tick_body_never_sleeps() {
    let clock = FrameClock::new(1000, 16);
    // The body took 24 ms, past the interval: the sleep must be zero, not
    // a negative duration.
    assert_eq!(clock.pacing_sleep(1024), 0);
    assert_eq!(clock.pacing_sleep(1016), 0);
}

#[test]
fn frame_delta_advances_only_the_frame_timestamp() {
    let mut clock = FrameClock::new(500, 16);
    assert_eq!(clock.frame_delta(530), 30);
    assert_eq!(clock.frame_delta(530), 0);
    assert_eq!(clock.pacing_sleep(500), 16);
}

#[test]
fn fps_to_interval() {
    assert_eq!(target_interval_from_fps(60), 16);
    assert_eq!(target_interval_from_fps(125), 8);
    assert_eq!(target_interval_from_fps(1), 1000);
    // Rates above one thousand come out as "do not pace".
    assert_eq!(target_interval_from_fps(2000), 0);
}
