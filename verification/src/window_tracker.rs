//! Tracks the target window's client-area geometry and focus state each tick
//! and decides when the overlay window must be repositioned.
//!
//! The operating-system query (client rectangle, screen conversion, focus)
//! is performed by the unverified shell, which hands its outcome in as a
//! [`WindowQuery`]; the tracker turns it into a decision: terminate the
//! session, keep the current placement, or apply a new one.

use vstd::prelude::*;

use crate::geometry::{Bounds, OverlayGeometry, Rect};
use crate::OverlayError;

verus! {

/// Outcome of one operating-system query of the target window, handed in by
/// the shell that made the query.
#[derive(Clone, Copy, Debug, PartialEq, Eq, Structural)]
pub enum WindowQuery {
    /// The query failed because the window handle is no longer valid: the
    /// target window is gone.
    InvalidHandle,
    /// The query failed for any other reason; treated as transient.
    QueryFailed,
    /// The query succeeded: the client area in screen coordinates, and
    /// whether the target window currently holds input focus.
    ClientArea { bounds: Bounds, focused: bool },
}

impl WindowQuery {
    /// What the tracker asks of a successful query: an ordered rectangle
    /// whose sides fit in `i32`, with room to nudge the bottom edge down.
    pub open spec fn well_formed(self) -> bool {
        self matches WindowQuery::ClientArea { bounds, .. } ==> {
            &&& bounds.well_formed()
            &&& bounds.bottom > i32::MIN
        }
    }
}

/// The bounds the overlay must match for a query result: when the target
/// window does not hold focus, the bottom edge is pulled up by one unit so
/// the overlay does not cover a focus indicator beneath it.
pub open spec fn effective_bounds(bounds: Bounds, focused: bool) -> Bounds {
    if focused {
        bounds
    } else {
        Bounds { bottom: (bounds.bottom - 1) as i32, ..bounds }
    }
}

/// The tracker's answer for one tick.
#[derive(Clone, Copy, Debug, PartialEq, Eq, Structural)]
pub struct TrackUpdate {
    /// False exactly when the target window is gone and the session must
    /// end; every other outcome continues the session.
    pub alive: bool,
    /// The placement to apply to the overlay window, when the target's
    /// geometry changed; `None` means leave the overlay where it is.
    pub placement: Option<OverlayGeometry>,
}

/// Follows one target window across ticks.
///
/// `current_bounds` holds the effective bounds last applied; `None` is the
/// sentinel meaning "no bounds stored", so the next successful query always
/// applies its geometry.
pub struct WindowTracker {
    pub handle: isize,
    pub current_bounds: Option<Bounds>,
}

impl WindowTracker {
    /// What always holds of a tracker the library built: stored bounds are
    /// the effective bounds of some well-formed query, so their width fits
    /// in `i32` and their height is at worst one below zero.
    pub open spec fn well_formed(self) -> bool {
        self.current_bounds matches Some(b) ==> {
            &&& b.left <= b.right
            &&& b.right - b.left <= i32::MAX
            &&& b.bottom - b.top <= i32::MAX
        }
    }
}

/// The tracker state after [`WindowTracker::update`] sees `q`.
pub open spec fn tracker_step_state(t: WindowTracker, q: WindowQuery) -> WindowTracker {
    match q {
        WindowQuery::InvalidHandle => t,
        WindowQuery::QueryFailed => t,
        WindowQuery::ClientArea { bounds, focused } => {
            let eff = effective_bounds(bounds, focused);
            if t.current_bounds == Some(eff) {
                t
            } else {
                WindowTracker { current_bounds: Some(eff), ..t }
            }
        },
    }
}

/// The decision [`WindowTracker::update`] returns for `q`.
pub open spec fn tracker_step_result(t: WindowTracker, q: WindowQuery) -> TrackUpdate {
    match q {
        WindowQuery::InvalidHandle => TrackUpdate { alive: false, placement: None },
        WindowQuery::QueryFailed => TrackUpdate { alive: true, placement: None },
        WindowQuery::ClientArea { bounds, focused } => {
            let eff = effective_bounds(bounds, focused);
            if t.current_bounds == Some(eff) {
                TrackUpdate { alive: true, placement: None }
            } else {
                TrackUpdate {
                    alive: true,
                    placement: Some(OverlayGeometry::spec_from_bounds(eff)),
                }
            }
        },
    }
}

impl WindowTracker {
    /// Starts tracking the window behind `handle`, which the caller
    /// resolved from the target specification; a null handle means
    /// resolution found nothing.
    pub fn new(handle: isize) -> (r: Result<WindowTracker, OverlayError>)
        ensures
            handle != 0 ==> r == Ok::<WindowTracker, OverlayError>(WindowTracker {
                handle,
                current_bounds: None,
            }),
            handle == 0 ==> r == Err::<WindowTracker, OverlayError>(OverlayError::WindowNotFound),
    {
        if handle == 0 {
            Err(OverlayError::WindowNotFound)
        } else {
            Ok(WindowTracker { handle, current_bounds: None })
        }
    }

    /// Drops the stored bounds so the next `update` is guaranteed to treat
    /// the target's geometry as changed; used once after the first rendered
    /// frame to force the initial positioning.
    pub fn mark_force_update(&mut self)
        ensures
            final(self).handle == old(self).handle,
            final(self).current_bounds is None,
    {
        self.current_bounds = None;
    }

    /// Reacts to one query of the target window.
    ///
    /// An invalid handle is the only fatal condition; any other failure is
    /// transient and changes nothing.  A successful query whose effective
    /// bounds differ from the stored ones stores them and returns the
    /// placement the overlay window must move to.
    pub fn update(&mut self, query: &WindowQuery) -> (r: TrackUpdate)
        requires
            old(self).well_formed(),
            query.well_formed(),
        ensures
            final(self).well_formed(),
            *final(self) == tracker_step_state(*old(self), *query),
            r == tracker_step_result(*old(self), *query),
            r.alive <==> !(*query is InvalidHandle),
            r.placement matches Some(g) ==> g.well_formed(),
    {
        match query {
            WindowQuery::InvalidHandle => TrackUpdate { alive: false, placement: None },
            WindowQuery::QueryFailed => TrackUpdate { alive: true, placement: None },
            WindowQuery::ClientArea { bounds, focused } => {
                let eff = if *focused {
                    *bounds
                } else {
                    Bounds { bottom: bounds.bottom - 1, ..*bounds }
                };
                let unchanged = match &self.current_bounds {
                    Some(cb) => *cb == eff,
                    None => false,
                };
                if unchanged {
                    TrackUpdate { alive: true, placement: None }
                } else {
                    self.current_bounds = Some(eff);
                    let g = OverlayGeometry::from_bounds(&eff);
                    TrackUpdate { alive: true, placement: Some(g) }
                }
            },
        }
    }

    /// The size of the placement last applied; zero before any placement.
    /// This is the read-only snapshot consumers may poll.
    pub fn current_size(&self) -> (r: Rect)
        requires
            self.well_formed(),
        ensures
            self.current_bounds matches Some(b) ==> r == OverlayGeometry::spec_from_bounds(
                b,
            ).spec_size(),
            self.current_bounds is None ==> r == (Rect { width: 0, high: 0 }),
    {
        match &self.current_bounds {
            Some(b) => {
                let g = OverlayGeometry::from_bounds(b);
                g.size()
            },
            None => Rect { width: 0, high: 0 },
        }
    }
}

/// Running `update` twice with the same successful query applies a
/// placement at most once: the second call keeps the session alive and
/// leaves the overlay where it is.
pub proof fn lemma_update_idempotent(t: WindowTracker, q: WindowQuery)
    requires
        q matches WindowQuery::ClientArea { .. },
    ensures
        tracker_step_result(t, q).alive,
        tracker_step_result(tracker_step_state(t, q), q).alive,
        tracker_step_result(tracker_step_state(t, q), q).placement is None,
{
}

/// After `mark_force_update` drops the stored bounds, the next successful
/// query always applies its geometry, whatever rectangle it reports: the
/// sentinel differs from every real rectangle.
pub proof fn lemma_force_update_applies(t: WindowTracker, q: WindowQuery)
    requires
        q matches WindowQuery::ClientArea { .. },
    ensures
        ({
            let forced = WindowTracker { current_bounds: None, ..t };
            &&& tracker_step_result(forced, q).alive
            &&& tracker_step_result(forced, q).placement == Some(
                OverlayGeometry::spec_from_bounds(
                    effective_bounds(q->bounds, q->focused),
                ),
            )
        }),
{
}

} // verus!
