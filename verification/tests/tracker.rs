use overlay_runtime::geometry::{Bounds, OverlayGeometry, Rect};
use overlay_runtime::window_tracker::{TrackUpdate, WindowQuery, WindowTracker};
use overlay_runtime::OverlayError;

fn bounds(left: i32, top: i32, right: i32, bottom: i32) -> Bounds {
    Bounds { left, top, right, bottom }
}

#[test]
fn new_rejects_null_handle() {
    let r = WindowTracker::new(0);
    assert_eq!(r.err(), Some(OverlayError::WindowNotFound));
}

#[test]
fn new_accepts_live_handle() {
    let t = WindowTracker::new(42).unwrap();
    assert_eq!(t.handle, 42);
    assert!(t.current_bounds.is_none());
}

#[test]
fn update_applies_geometry_on_change() {
    let mut t = WindowTracker::new(7).unwrap();
    let q = WindowQuery::ClientArea { bounds: bounds(10, 20, 110, 220), focused: true };
    let r = t.update(&q);
    assert!(r.alive);
    assert_eq!(
        r.placement,
        Some(OverlayGeometry { x: 10, y: 20, width: 100, height: 200 })
    );
}

#[test]
fn update_twice_with_same_bounds_applies_once() {
    let mut t = WindowTracker::new(7).unwrap();
    let q = WindowQuery::ClientArea { bounds: bounds(10, 20, 110, 220), focused: true };
    let first = t.update(&q);
    assert!(first.alive);
    assert!(first.placement.is_some());
    let second = t.update(&q);
    assert!(second.alive);
    assert_eq!(second.placement, None);
}

#[test]
fn force_update_reapplies_identical_bounds() {
    let mut t = WindowTracker::new(7).unwrap();
    let q = WindowQuery::ClientArea { bounds: bounds(1, 2, 3, 4), focused: true };
    let first = t.update(&q);
    assert!(first.placement.is_some());
    assert_eq!(t.update(&q).placement, None);
    t.mark_force_update();
    let after_force = t.update(&q);
    assert_eq!(after_force.placement, first.placement);
}

#[test]
fn force_update_applies_even_the_zero_rectangle() {
    let mut t = WindowTracker::new(7).unwrap();
    let q = WindowQuery::ClientArea { bounds: bounds(0, 0, 0, 0), focused: true };
    let first = t.update(&q);
    assert_eq!(
        first.placement,
        Some(OverlayGeometry { x: 0, y: 0, width: 0, height: 0 })
    );
    t.mark_force_update();
    assert_eq!(t.update(&q).placement, first.placement);
}

#[test]
fn invalid_handle_terminates_exactly_that_call() {
    let mut t = WindowTracker::new(7).unwrap();
    let live = WindowQuery::ClientArea { bounds: bounds(0, 0, 10, 10), focused: true };
    assert!(t.update(&live).alive);
    let r = t.update(&WindowQuery::InvalidHandle);
    assert_eq!(r, TrackUpdate { alive: false, placement: None });
}

#[test]
fn transient_failure_continues_without_change() {
    let mut t = WindowTracker::new(7).unwrap();
    let live = WindowQuery::ClientArea { bounds: bounds(0, 0, 10, 10), focused: true };
    assert!(t.update(&live).placement.is_some());
    let r = t.update(&WindowQuery::QueryFailed);
    assert!(r.alive);
    assert_eq!(r.placement, None);
    assert_eq!(t.update(&live).placement, None);
}

#[test]
fn unfocused_target_shrinks_bottom_edge() {
    let mut t = WindowTracker::new(7).unwrap();
    let q = WindowQuery::ClientArea { bounds: bounds(10, 20, 110, 220), focused: false };
    let r = t.update(&q);
    assert_eq!(
        r.placement,
        Some(OverlayGeometry { x: 10, y: 20, width: 100, height: 199 })
    );
    let refocused = WindowQuery::ClientArea { bounds: bounds(10, 20, 110, 220), focused: true };
    let r2 = t.update(&refocused);
    assert_eq!(
        r2.placement,
        Some(OverlayGeometry { x: 10, y: 20, width: 100, height: 200 })
    );
}

#[test]
fn degenerate_rectangle_clamps_height_to_zero() {
    let mut t = WindowTracker::new(7).unwrap();
    let q = WindowQuery::ClientArea { bounds: bounds(5, 8, 15, 8), focused: false };
    let r = t.update(&q);
    assert_eq!(
        r.placement,
        Some(OverlayGeometry { x: 5, y: 8, width: 10, height: 0 })
    );
}

#[test]
fn current_size_reflects_last_placement() {
    let mut t = WindowTracker::new(7).unwrap();
    assert_eq!(t.current_size(), Rect { width: 0, high: 0 });
    let q = WindowQuery::ClientArea { bounds: bounds(10, 20, 110, 220), focused: true };
    t.update(&q);
    assert_eq!(t.current_size(), Rect { width: 100, high: 200 });
}
