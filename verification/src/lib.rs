//! Core logic of a transparent, click-through, always-on-top overlay that
//! visually follows a target window on a desktop operating system.
//!
//! The library holds the decision side of the overlay runtime loop: target
//! window resolution, window-geometry tracking, input-capture arbitration,
//! the presentation-surface lifecycle, per-message window-procedure
//! decisions, and frame pacing.  The operating-system and GPU calls that
//! those decisions drive are performed by a thin unverified shell around the
//! library; every function here is pure in the sense that it works on plain
//! values handed in by that shell.

use vstd::prelude::*;

pub mod geometry;
pub mod input;
pub mod messages;
pub mod options;
pub mod presentation;
pub mod runtime;
pub mod scheduler;
pub mod target;
pub mod window_tracker;

verus! {

/// Errors that the overlay core reports to its caller.
///
/// Construction-time failures (an unresolvable target) and fatal
/// presentation failures (an unrecognized driver code, a fence-wait
/// timeout) are typed; everything else either self-heals or ends the
/// session cleanly without an error.
#[derive(Clone, Copy, Debug, PartialEq, Eq, Structural)]
pub enum OverlayError {
    /// The target specification did not resolve to a live window.
    WindowNotFound,
    /// An acquire or present call answered with a driver code that is not
    /// the recognized "out of date" or "suboptimal" condition; the raw code
    /// is carried for the log.
    DeviceFault(i32),
    /// The wait on the in-flight fence ran out even with its very large
    /// timeout: the device is not making progress.
    FenceTimeout,
    /// The driver acquired an image index for which no render target
    /// exists.
    InvalidImageIndex(u32),
}

} // verus!
