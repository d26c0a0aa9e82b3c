//! The runtime controller: composes the per-tick update phase out of the
//! window tracker and the input arbitration, counts rendered frames, and
//! decides when the loop ends.

use vstd::prelude::*;

use crate::geometry::OverlayGeometry;
use crate::input::{style_for, OverlayActiveTracker, StyleChange};
use crate::window_tracker::{
    tracker_step_result, tracker_step_state, WindowQuery, WindowTracker,
};

verus! {

/// Why the overlay session ended; all three are clean exits, not errors.
#[derive(Clone, Copy, Debug, PartialEq, Eq, Structural)]
pub enum ExitReason {
    /// The operating system delivered a quit signal.
    OsQuit,
    /// The tracked target window is gone.
    TargetLost,
    /// The host's render or update callback asked to stop.
    CallbackStop,
}

/// Decides whether the loop continues, from this tick's three termination
/// triggers, checked in their fixed order: the drained message queue
/// first, the tracker's verdict second, the callback's wish last.
pub fn loop_decision(saw_quit: bool, tracker_alive: bool, callback_continue: bool) -> (r: Option<
    ExitReason,
>)
    ensures
        saw_quit ==> r == Some(ExitReason::OsQuit),
        !saw_quit && !tracker_alive ==> r == Some(ExitReason::TargetLost),
        !saw_quit && tracker_alive && !callback_continue ==> r == Some(ExitReason::CallbackStop),
        r is None <==> !saw_quit && tracker_alive && callback_continue,
{
    if saw_quit {
        Some(ExitReason::OsQuit)
    } else if !tracker_alive {
        Some(ExitReason::TargetLost)
    } else if !callback_continue {
        Some(ExitReason::CallbackStop)
    } else {
        None
    }
}

/// Everything the update phase of one tick tells the shell to do.
#[derive(Clone, Copy, Debug, PartialEq, Eq, Structural)]
pub struct TickDecision {
    /// False exactly when the target window is gone and the session ends.
    pub alive: bool,
    /// The placement to move the overlay window to, if its target moved.
    pub placement: Option<OverlayGeometry>,
    /// The window-style adjustment to apply, if input arbitration flipped.
    pub style: Option<StyleChange>,
}

/// The session-level state the host steers each tick: the window tracker,
/// the input arbitration, how many frames have been rendered, and whether
/// the internal debug-statistics overlay is shown.
pub struct SystemRuntimeController {
    pub window_tracker: WindowTracker,
    pub active_tracker: OverlayActiveTracker,
    pub frame_count: u64,
    pub debug_overlay_shown: bool,
}

impl SystemRuntimeController {
    /// A controller for a freshly created overlay window following the
    /// given tracker's target: no frame rendered yet, debug overlay
    /// hidden, input arbitration in its initial active state.
    pub fn new(window_tracker: WindowTracker) -> (r: SystemRuntimeController)
        ensures
            r.window_tracker == window_tracker,
            r.active_tracker.active,
            r.frame_count == 0,
            !r.debug_overlay_shown,
    {
        SystemRuntimeController {
            window_tracker,
            active_tracker: OverlayActiveTracker::new(),
            frame_count: 0,
            debug_overlay_shown: false,
        }
    }

    /// The update phase of one tick: reacts to the target-window query,
    /// and — while the target lives — arbitrates input capture with the
    /// wish the UI expressed on the previous frame.  When the target is
    /// gone, nothing else is touched and the shell must end the session.
    pub fn update_state(&mut self, query: &WindowQuery, ui_wants_capture: bool) -> (r:
        TickDecision)
        requires
            old(self).window_tracker.well_formed(),
            query.well_formed(),
        ensures
            final(self).window_tracker == tracker_step_state(old(self).window_tracker, *query),
            final(self).window_tracker.well_formed(),
            final(self).frame_count == old(self).frame_count,
            final(self).debug_overlay_shown == old(self).debug_overlay_shown,
            r.alive == tracker_step_result(old(self).window_tracker, *query).alive,
            r.alive <==> !(*query is InvalidHandle),
            r.placement == tracker_step_result(old(self).window_tracker, *query).placement,
            !r.alive ==> final(self).active_tracker == old(self).active_tracker && r.style is None,
            r.alive ==> final(self).active_tracker.active == ui_wants_capture,
            r.alive ==> (r.style is Some <==> ui_wants_capture != old(self).active_tracker.active),
            r.style matches Some(s) ==> s == style_for(ui_wants_capture),
    {
        let verdict = self.window_tracker.update(query);
        if !verdict.alive {
            TickDecision { alive: false, placement: verdict.placement, style: None }
        } else {
            let style = self.active_tracker.update(ui_wants_capture);
            TickDecision { alive: true, placement: verdict.placement, style }
        }
    }

    /// Records one successfully presented frame.  Returns true exactly for
    /// the first frame of the session, on which the shell makes the
    /// overlay window visible (it starts hidden, so no unstyled frame ever
    /// flashes) — and the tracker is reset so the next tick repositions
    /// the now-visible window.
    pub fn frame_rendered(&mut self) -> (first: bool)
        requires
            old(self).frame_count < u64::MAX,
        ensures
            first == (old(self).frame_count == 0),
            final(self).frame_count == old(self).frame_count + 1,
            final(self).active_tracker == old(self).active_tracker,
            final(self).debug_overlay_shown == old(self).debug_overlay_shown,
            final(self).window_tracker.handle == old(self).window_tracker.handle,
            first ==> final(self).window_tracker.current_bounds is None,
            !first ==> final(self).window_tracker == old(self).window_tracker,
            final(self).window_tracker.well_formed() || !first && !old(
                self,
            ).window_tracker.well_formed(),
    {
        let first = self.frame_count == 0;
        self.frame_count = self.frame_count + 1;
        if first {
            self.window_tracker.mark_force_update();
        }
        first
    }

    /// Shows the debug-statistics overlay when it is hidden and hides it
    /// when it is shown.
    pub fn toggle_debug_overlay(&mut self)
        ensures
            final(self).debug_overlay_shown == !old(self).debug_overlay_shown,
            final(self).window_tracker == old(self).window_tracker,
            final(self).active_tracker == old(self).active_tracker,
            final(self).frame_count == old(self).frame_count,
    {
        self.debug_overlay_shown = !self.debug_overlay_shown;
    }
}

} // verus!
