use overlay_runtime::presentation::{
    handle_fence_wait, AcquireAction, AcquireOutcome, FenceWaitOutcome, FrameSync,
    PresentOutcome, PresentationSurface, SurfaceStatus, TickGate,
};
use overlay_runtime::OverlayError;

fn sync(base: u64) -> FrameSync {
    FrameSync { image_available: base, render_complete: base + 1, in_flight_fence: base + 2 }
}

#[test]
fn fresh_surface_proceeds() {
    let s = PresentationSurface::new(800, 600, vec![1, 2, 3], sync(10));
    assert_eq!(s.status, SurfaceStatus::Valid);
    assert_eq!(s.generation, 0);
    assert_eq!(s.begin_tick(800, 600), TickGate::Proceed);
}

#[test]
fn out_of_date_acquire_goes_stale_then_rebuilds_and_resumes() {
    let mut s = PresentationSurface::new(800, 600, vec![1, 2, 3], sync(10));

    // The driver reports the surface out of date: this tick's submission
    // is skipped entirely and the surface is stale.
    let a = s.handle_acquire(&AcquireOutcome::OutOfDate);
    assert_eq!(a, AcquireAction::SkipStale);
    assert_eq!(s.status, SurfaceStatus::Stale);

    // Next tick, the drawable has area: rebuild.
    assert_eq!(s.begin_tick(1024, 768), TickGate::Rebuild);
    s.complete_rebuild(1024, 768, vec![4, 5], sync(20));
    assert_eq!(s.status, SurfaceStatus::Valid);
    assert_eq!(s.generation, 1);
    assert_eq!((s.width, s.height), (1024, 768));

    // The rebuilt surface acquires and presents normally again.
    assert_eq!(s.begin_tick(1024, 768), TickGate::Proceed);
    let a = s.handle_acquire(&AcquireOutcome::Image(1));
    assert_eq!(a, AcquireAction::Render { image_index: 1, render_target: 5 });
    assert_eq!(s.handle_present(&PresentOutcome::Presented { suboptimal: false }), None);
    assert_eq!(s.status, SurfaceStatus::Valid);
}

#[test]
fn minimized_drawable_skips_the_tick() {
    let mut s = PresentationSurface::new(800, 600, vec![1], sync(0));
    s.mark_stale();
    assert_eq!(s.begin_tick(0, 600), TickGate::Skip);
    assert_eq!(s.begin_tick(800, 0), TickGate::Skip);
    assert_eq!(s.status, SurfaceStatus::Stale);
    assert_eq!(s.begin_tick(800, 600), TickGate::Rebuild);
}

#[test]
fn suboptimal_and_out_of_date_present_are_nonfatal_and_go_stale() {
    let mut s = PresentationSurface::new(800, 600, vec![1], sync(0));
    assert_eq!(s.handle_present(&PresentOutcome::Presented { suboptimal: true }), None);
    assert_eq!(s.status, SurfaceStatus::Stale);

    let mut s2 = PresentationSurface::new(800, 600, vec![1], sync(0));
    assert_eq!(s2.handle_present(&PresentOutcome::OutOfDate), None);
    assert_eq!(s2.status, SurfaceStatus::Stale);
}

#[test]
fn unrecognized_driver_codes_are_fatal() {
    let mut s = PresentationSurface::new(800, 600, vec![1], sync(0));
    let a = s.handle_acquire(&AcquireOutcome::DeviceError(-4));
    assert_eq!(a, AcquireAction::Fatal(OverlayError::DeviceFault(-4)));

    let mut s2 = PresentationSurface::new(800, 600, vec![1], sync(0));
    let e = s2.handle_present(&PresentOutcome::DeviceError(-13));
    assert_eq!(e, Some(OverlayError::DeviceFault(-13)));
}

#[test]
fn acquired_index_without_render_target_is_fatal() {
    let mut s = PresentationSurface::new(800, 600, vec![1, 2], sync(0));
    let a = s.handle_acquire(&AcquireOutcome::Image(2));
    assert_eq!(a, AcquireAction::Fatal(OverlayError::InvalidImageIndex(2)));
}

#[test]
fn fence_wait_outcomes() {
    assert_eq!(handle_fence_wait(&FenceWaitOutcome::Signaled), None);
    assert_eq!(
        handle_fence_wait(&FenceWaitOutcome::TimedOut),
        Some(OverlayError::FenceTimeout)
    );
    assert_eq!(
        handle_fence_wait(&FenceWaitOutcome::DeviceError(-2)),
        Some(OverlayError::DeviceFault(-2))
    );
}
