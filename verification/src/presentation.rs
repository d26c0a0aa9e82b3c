//! Lifecycle of the GPU presentation resources: the swapchain, its
//! per-image render targets and the per-frame synchronization handles.
//!
//! The surface is either valid, and frames may be acquired and presented,
//! or stale, and the tick either rebuilds it (drawable size non-zero) or is
//! skipped entirely (minimized).  The shell performs the driver calls and
//! hands their outcomes in; the library decides every transition.

use vstd::prelude::*;

use crate::OverlayError;

verus! {

/// Whether frames may currently be acquired from the surface.
#[derive(Clone, Copy, Debug, PartialEq, Eq, Structural)]
pub enum SurfaceStatus {
    /// The swapchain matches the drawable surface; acquire and present are
    /// allowed.
    Valid,
    /// The drawable changed or the driver reported the swapchain out of
    /// date; it must be rebuilt before any further presentation.
    Stale,
}

/// The per-frame synchronization handles, one set per frame in flight
/// (this design keeps a single frame in flight): the two completion
/// signals and the fence the processor waits on before reusing the slot.
/// A set lives exactly as long as the surface generation it was built for.
#[derive(Clone, Copy, Debug, PartialEq, Eq, Structural)]
pub struct FrameSync {
    pub image_available: u64,
    pub render_complete: u64,
    pub in_flight_fence: u64,
}

/// The presentation resources as the library tracks them: status, the
/// extent the swapchain was built at, one render-target handle per
/// swapchain image in image order, the synchronization set of the current
/// generation, and how many times the surface has been rebuilt.
pub struct PresentationSurface {
    pub status: SurfaceStatus,
    pub width: u32,
    pub height: u32,
    pub render_targets: Vec<u64>,
    pub sync: FrameSync,
    pub generation: u64,
}

/// What a tick may do with the surface, decided before any driver call.
#[derive(Clone, Copy, Debug, PartialEq, Eq, Structural)]
pub enum TickGate {
    /// The surface is valid: acquire, submit and present this tick.
    Proceed,
    /// The surface is stale and the drawable has size: tear it down and
    /// rebuild it at the new size, then render.
    Rebuild,
    /// The surface is stale and the drawable has no area (minimized): skip
    /// this tick's submission entirely.
    Skip,
}

/// Outcome of the driver's image-acquire call, handed in by the shell.
#[derive(Clone, Copy, Debug, PartialEq, Eq, Structural)]
pub enum AcquireOutcome {
    /// An image was acquired, with its index.
    Image(u32),
    /// The surface no longer matches the drawable.
    OutOfDate,
    /// Any other driver code, carried raw.
    DeviceError(i32),
}

/// Outcome of the driver's present call, handed in by the shell.
#[derive(Clone, Copy, Debug, PartialEq, Eq, Structural)]
pub enum PresentOutcome {
    /// The image was presented; `suboptimal` reports a surface that still
    /// works but no longer matches the drawable exactly.
    Presented { suboptimal: bool },
    /// The surface no longer matches the drawable.
    OutOfDate,
    /// Any other driver code, carried raw.
    DeviceError(i32),
}

/// Outcome of the wait on the in-flight fence, handed in by the shell.
#[derive(Clone, Copy, Debug, PartialEq, Eq, Structural)]
pub enum FenceWaitOutcome {
    /// The fence signalled: the frame slot may be reused.
    Signaled,
    /// The very large timeout ran out first.
    TimedOut,
    /// Any other driver code, carried raw.
    DeviceError(i32),
}

/// What the tick does after the acquire outcome is known.
#[derive(Clone, Copy, Debug, PartialEq, Eq, Structural)]
pub enum AcquireAction {
    /// Record and submit into this image's render target, then present.
    Render { image_index: u32, render_target: u64 },
    /// The surface went stale: skip the rest of this tick's presentation.
    SkipStale,
    /// An unrecoverable condition: abort the session with this error.
    Fatal(OverlayError),
}

impl PresentationSurface {
    /// What always holds of a surface the library built: a valid surface
    /// has a non-zero extent and at least one render target.
    pub open spec fn well_formed(self) -> bool {
        self.status is Valid ==> {
            &&& self.width > 0
            &&& self.height > 0
            &&& self.render_targets@.len() >= 1
        }
    }
}

/// What [`PresentationSurface::begin_tick`] answers for a drawable of the
/// given size.
pub open spec fn tick_gate(s: PresentationSurface, drawable_width: u32, drawable_height: u32) -> TickGate {
    match s.status {
        SurfaceStatus::Valid => TickGate::Proceed,
        SurfaceStatus::Stale => {
            if drawable_width > 0 && drawable_height > 0 {
                TickGate::Rebuild
            } else {
                TickGate::Skip
            }
        },
    }
}

/// The surface state after the acquire outcome `o` is handled.
pub open spec fn after_acquire(s: PresentationSurface, o: AcquireOutcome) -> PresentationSurface {
    if o is OutOfDate {
        PresentationSurface { status: SurfaceStatus::Stale, ..s }
    } else {
        s
    }
}

/// The action the tick takes for the acquire outcome `o`.
pub open spec fn acquire_action(s: PresentationSurface, o: AcquireOutcome) -> AcquireAction {
    match o {
        AcquireOutcome::Image(i) => {
            if i < s.render_targets@.len() {
                AcquireAction::Render { image_index: i, render_target: s.render_targets@[i as int] }
            } else {
                AcquireAction::Fatal(OverlayError::InvalidImageIndex(i))
            }
        },
        AcquireOutcome::OutOfDate => AcquireAction::SkipStale,
        AcquireOutcome::DeviceError(c) => AcquireAction::Fatal(OverlayError::DeviceFault(c)),
    }
}

/// The surface state after the present outcome `o` is handled: a
/// suboptimal or out-of-date present marks the surface stale for the next
/// tick, every other outcome leaves it as it is.
pub open spec fn after_present(s: PresentationSurface, o: PresentOutcome) -> PresentationSurface {
    match o {
        PresentOutcome::Presented { suboptimal } => {
            if suboptimal {
                PresentationSurface { status: SurfaceStatus::Stale, ..s }
            } else {
                s
            }
        },
        PresentOutcome::OutOfDate => PresentationSurface { status: SurfaceStatus::Stale, ..s },
        PresentOutcome::DeviceError(_) => s,
    }
}

/// The error, if any, that the present outcome `o` makes fatal.
pub open spec fn present_error(o: PresentOutcome) -> Option<OverlayError> {
    match o {
        PresentOutcome::DeviceError(c) => Some(OverlayError::DeviceFault(c)),
        _ => None,
    }
}

impl PresentationSurface {
    /// Publishes a freshly built surface: swapchain at the given non-zero
    /// extent, its render targets in image order, and the first generation
    /// of synchronization handles.
    pub fn new(width: u32, height: u32, render_targets: Vec<u64>, sync: FrameSync) -> (s:
        PresentationSurface)
        requires
            width > 0,
            height > 0,
            render_targets@.len() >= 1,
        ensures
            s.status is Valid,
            s.width == width,
            s.height == height,
            s.render_targets == render_targets,
            s.sync == sync,
            s.generation == 0,
            s.well_formed(),
    {
        PresentationSurface {
            status: SurfaceStatus::Valid,
            width,
            height,
            render_targets,
            sync,
            generation: 0,
        }
    }

    /// Marks the surface stale; called when the drawable surface resized
    /// beneath it.
    pub fn mark_stale(&mut self)
        ensures
            final(self).status is Stale,
            final(self).width == old(self).width,
            final(self).height == old(self).height,
            final(self).render_targets == old(self).render_targets,
            final(self).sync == old(self).sync,
            final(self).generation == old(self).generation,
    {
        self.status = SurfaceStatus::Stale;
    }

    /// Decides what this tick may do, from the drawable's current size:
    /// proceed on a valid surface, rebuild a stale one when the drawable
    /// has area, and skip the tick entirely while it has none.
    pub fn begin_tick(&self, drawable_width: u32, drawable_height: u32) -> (g: TickGate)
        ensures
            g == tick_gate(*self, drawable_width, drawable_height),
            g is Proceed <==> self.status is Valid,
            g is Rebuild <==> self.status is Stale && drawable_width > 0 && drawable_height > 0,
            g is Skip <==> self.status is Stale && (drawable_width == 0 || drawable_height == 0),
    {
        match self.status {
            SurfaceStatus::Valid => TickGate::Proceed,
            SurfaceStatus::Stale => {
                if drawable_width > 0 && drawable_height > 0 {
                    TickGate::Rebuild
                } else {
                    TickGate::Skip
                }
            },
        }
    }

    /// Publishes the surface rebuilt at the drawable's new size, with the
    /// old resources fully released by the shell beforehand: the swap is
    /// atomic from the consumer's perspective, no tick ever observes a
    /// half-built surface.
    pub fn complete_rebuild(
        &mut self,
        width: u32,
        height: u32,
        render_targets: Vec<u64>,
        sync: FrameSync,
    )
        requires
            width > 0,
            height > 0,
            render_targets@.len() >= 1,
            old(self).generation < u64::MAX,
        ensures
            final(self).status is Valid,
            final(self).width == width,
            final(self).height == height,
            final(self).render_targets == render_targets,
            final(self).sync == sync,
            final(self).generation == old(self).generation + 1,
            final(self).well_formed(),
    {
        self.status = SurfaceStatus::Valid;
        self.width = width;
        self.height = height;
        self.render_targets = render_targets;
        self.sync = sync;
        self.generation = self.generation + 1;
    }

    /// Reacts to the driver's acquire outcome: hands back the render
    /// target to draw into, or marks the surface stale and skips the rest
    /// of the tick, or reports an unrecoverable condition.
    pub fn handle_acquire(&mut self, outcome: &AcquireOutcome) -> (a: AcquireAction)
        requires
            old(self).well_formed(),
            old(self).status is Valid,
        ensures
            *final(self) == after_acquire(*old(self), *outcome),
            a == acquire_action(*old(self), *outcome),
            final(self).well_formed(),
            a is SkipStale <==> *outcome is OutOfDate,
            final(self).status is Stale <==> *outcome is OutOfDate,
    {
        match outcome {
            AcquireOutcome::Image(i) => {
                if (*i as usize) < self.render_targets.len() {
                    AcquireAction::Render {
                        image_index: *i,
                        render_target: self.render_targets[*i as usize],
                    }
                } else {
                    AcquireAction::Fatal(OverlayError::InvalidImageIndex(*i))
                }
            },
            AcquireOutcome::OutOfDate => {
                self.status = SurfaceStatus::Stale;
                AcquireAction::SkipStale
            },
            AcquireOutcome::DeviceError(c) => AcquireAction::Fatal(OverlayError::DeviceFault(*c)),
        }
    }

    /// Reacts to the driver's present outcome: a suboptimal or out-of-date
    /// present is non-fatal and marks the surface stale for the next tick;
    /// any unrecognized code is fatal.
    pub fn handle_present(&mut self, outcome: &PresentOutcome) -> (e: Option<OverlayError>)
        requires
            old(self).well_formed(),
            old(self).status is Valid,
        ensures
            *final(self) == after_present(*old(self), *outcome),
            e == present_error(*outcome),
            final(self).well_formed(),
    {
        match outcome {
            PresentOutcome::Presented { suboptimal } => {
                if *suboptimal {
                    self.status = SurfaceStatus::Stale;
                }
                None
            },
            PresentOutcome::OutOfDate => {
                self.status = SurfaceStatus::Stale;
                None
            },
            PresentOutcome::DeviceError(c) => Some(OverlayError::DeviceFault(*c)),
        }
    }
}

/// Reacts to the wait on the in-flight fence: only a signalled fence lets
/// the tick continue; the timeout running out or any other driver code
/// aborts the session.
pub fn handle_fence_wait(outcome: &FenceWaitOutcome) -> (e: Option<OverlayError>)
    ensures
        e is None <==> *outcome is Signaled,
        *outcome is TimedOut ==> e == Some(OverlayError::FenceTimeout),
        *outcome matches FenceWaitOutcome::DeviceError(c) ==> e == Some(OverlayError::DeviceFault(c)),
{
    match outcome {
        FenceWaitOutcome::Signaled => None,
        FenceWaitOutcome::TimedOut => Some(OverlayError::FenceTimeout),
        FenceWaitOutcome::DeviceError(c) => Some(OverlayError::DeviceFault(*c)),
    }
}

/// Recovery from a stale surface: when acquire reports "out of date" the
/// surface goes stale and the tick's submission is skipped; the next tick,
/// seeing a drawable with area, rebuilds, and the rebuilt surface proceeds
/// and acquires normally again — no further frame is dropped.
pub proof fn lemma_stale_recovery(
    s: PresentationSurface,
    drawable_width: u32,
    drawable_height: u32,
    rebuilt: PresentationSurface,
    image_index: u32,
)
    requires
        s.well_formed(),
        s.status is Valid,
        drawable_width > 0,
        drawable_height > 0,
        rebuilt.well_formed(),
        rebuilt.status is Valid,
        image_index < rebuilt.render_targets@.len(),
    ensures
        acquire_action(s, AcquireOutcome::OutOfDate) is SkipStale,
        after_acquire(s, AcquireOutcome::OutOfDate).status is Stale,
        tick_gate(after_acquire(s, AcquireOutcome::OutOfDate), drawable_width, drawable_height)
            is Rebuild,
        tick_gate(rebuilt, drawable_width, drawable_height) is Proceed,
        acquire_action(rebuilt, AcquireOutcome::Image(image_index)) matches AcquireAction::Render {
            image_index: i,
            render_target,
        } && i == image_index && render_target == rebuilt.render_targets@[image_index as int],
{
}

} // verus!
