//! Configuration the host hands the overlay runtime when it starts.

use vstd::prelude::*;

use crate::target::OverlayTarget;

verus! {

/// The presentation rate the host asks for, as the driver's sync interval:
/// zero presents without waiting (unlimited), one waits for each screen
/// refresh.
#[derive(Clone, Copy, Debug, PartialEq, Eq, Structural)]
pub struct FrameRate(pub u32);

impl FrameRate {
    /// One frame per screen refresh.
    pub fn sync_screen() -> (r: FrameRate)
        ensures
            r.0 == 1,
    {
        FrameRate(1)
    }

    /// Present as fast as frames are produced.
    pub fn unlimited() -> (r: FrameRate)
        ensures
            r.0 == 0,
    {
        FrameRate(0)
    }
}

/// What the host configures once, before the loop starts: the overlay
/// window's title, the window to follow, the presentation rate, and the
/// module handle used when the overlay runs inside a foreign process
/// (zero when it runs standalone).  Style hooks, which reach into the
/// hosted widget library, live with the shell.
pub struct WindowsOptions {
    pub title: String,
    pub overlay_target: OverlayTarget,
    pub frame_rate: FrameRate,
    pub dll_hinstance: usize,
}

impl WindowsOptions {
    /// The default configuration for a target: the stock title,
    /// refresh-synchronized presentation, standalone mode.
    pub fn new(target: OverlayTarget) -> (r: WindowsOptions)
        ensures
            r.title@ == "lingex_imgui_overlay"@,
            r.overlay_target == target,
            r.frame_rate.0 == 1,
            r.dll_hinstance == 0,
    {
        WindowsOptions {
            title: String::from_str("lingex_imgui_overlay"),
            overlay_target: target,
            frame_rate: FrameRate(1),
            dll_hinstance: 0,
        }
    }
}

} // verus!
