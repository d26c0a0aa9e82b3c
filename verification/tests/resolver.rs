use overlay_runtime::geometry::Bounds;
use overlay_runtime::target::{resolve_process_window, EnumeratedWindow};

fn window(handle: isize, process_id: Option<u32>, b: Option<(i32, i32, i32, i32)>) -> EnumeratedWindow {
    EnumeratedWindow {
        handle,
        process_id,
        bounds: b.map(|(left, top, right, bottom)| Bounds { left, top, right, bottom }),
    }
}

#[test]
fn picks_first_qualifying_window_in_order() {
    let ws = vec![
        window(11, Some(99), Some((0, 0, 100, 100))),  // other process
        window(12, Some(7), Some((0, 0, 0, 0))),       // placeholder bounds
        window(13, Some(7), None),                     // bounds query failed
        window(14, None, Some((0, 0, 50, 50))),        // owner unresolved
        window(15, Some(7), Some((10, 10, 60, 60))),   // first qualifying
        window(16, Some(7), Some((20, 20, 80, 80))),   // later qualifying
    ];
    assert_eq!(resolve_process_window(7, &ws), 15);
}

#[test]
fn zero_qualifying_windows_means_not_found() {
    let ws = vec![
        window(11, Some(99), Some((0, 0, 100, 100))),
        window(12, Some(7), Some((0, 0, 0, 0))),
        window(13, None, Some((1, 1, 2, 2))),
    ];
    assert_eq!(resolve_process_window(7, &ws), 0);
}

#[test]
fn empty_enumeration_means_not_found() {
    assert_eq!(resolve_process_window(7, &Vec::new()), 0);
}

#[test]
fn null_handle_ends_the_enumeration_early() {
    let ws = vec![
        window(11, Some(99), Some((0, 0, 100, 100))),
        window(0, Some(7), Some((1, 1, 2, 2))),
        window(15, Some(7), Some((10, 10, 60, 60))),
    ];
    assert_eq!(resolve_process_window(7, &ws), 0);
}

#[test]
fn partly_zero_bounds_still_qualify() {
    // Only bounds that are zero on all four edges mark a placeholder.
    let ws = vec![window(21, Some(3), Some((0, 0, 0, 1)))];
    assert_eq!(resolve_process_window(3, &ws), 21);
}
