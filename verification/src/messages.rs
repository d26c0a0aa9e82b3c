//! Window-procedure decisions: what the overlay window does with each
//! operating-system message, and the small word-packing helpers those
//! messages need.
//!
//! The shell's window procedure first offers each message to the hosted UI
//! backend; the messages that remain are classified here and the shell
//! carries the returned action out.

use vstd::prelude::*;

verus! {

/// The window was destroyed; the message loop must post its quit signal.
pub const WM_DESTROY: u32 = 0x0002;

/// The window was resized; the packed client size rides in `lparam`.
pub const WM_SIZE: u32 = 0x0005;

/// The window must repaint.
pub const WM_PAINT: u32 = 0x000F;

/// The system asks what part of the window a point hits.
pub const WM_NCHITTEST: u32 = 0x0084;

/// A system command; the command code rides in `wparam`.
pub const WM_SYSCOMMAND: u32 = 0x0112;

/// The system-command code for opening the window menu from the keyboard.
pub const SC_KEYMENU: u32 = 0xF100;

/// The `wparam` value of a resize caused by minimizing.
pub const SIZE_MINIMIZED: u32 = 1;

/// The hit-test answer that reports the client area.
pub const HTCLIENT: u32 = 1;

/// Mask that selects a system command's code from `wparam`, clearing the
/// bits the system uses internally.
pub const SYSCOMMAND_MASK: u32 = 0xFFF0;

/// The low word of a packed double word.
pub fn loword(v: u32) -> (r: u32)
    ensures
        r == v & 0xFFFF,
        r < 0x10000,
{
    proof {
        assert(v & 0xFFFF < 0x10000) by (bit_vector);
    }
    v & 0xFFFF
}

/// The high word of a packed double word.
pub fn hiword(v: u32) -> (r: u32)
    ensures
        r == (v >> 16) & 0xFFFF,
        r < 0x10000,
{
    proof {
        assert((v >> 16) & 0xFFFF < 0x10000) by (bit_vector);
    }
    (v >> 16) & 0xFFFF
}

/// A colour reference packed from its three channels, blue in the high of
/// the three bytes.
pub fn rgb(r: u8, g: u8, b: u8) -> (c: u32)
    ensures
        c == ((b as u32) << 16) | ((g as u32) << 8) | (r as u32),
{
    ((b as u32) << 16) | ((g as u32) << 8) | (r as u32)
}

/// What the overlay's window procedure does with one message.
#[derive(Clone, Copy, Debug, PartialEq, Eq, Structural)]
pub enum MessageAction {
    /// Acknowledge the repaint request without drawing; the frame loop
    /// paints.
    AcknowledgePaint,
    /// Rebuild the render target at the new client size.
    ResizeRenderTarget { width: u32, height: u32 },
    /// Swallow the keyboard window-menu command, which would steal input.
    SuppressKeyMenu,
    /// Post the quit signal: the window is gone.
    Quit,
    /// Answer the hit test with "client area".
    ClientHitTest,
    /// Leave the message to the system's default handling.
    PassThrough,
}

/// The classification [`classify_window_message`] computes: resizes while
/// minimized, system commands other than the keyboard menu, and every
/// unlisted message fall through to the default handling.
pub open spec fn classify_spec(message: u32, wparam: u32, lparam: u32) -> MessageAction {
    if message == WM_PAINT {
        MessageAction::AcknowledgePaint
    } else if message == WM_SIZE {
        if wparam != SIZE_MINIMIZED {
            MessageAction::ResizeRenderTarget {
                width: lparam & 0xFFFF,
                height: (lparam >> 16) & 0xFFFF,
            }
        } else {
            MessageAction::PassThrough
        }
    } else if message == WM_SYSCOMMAND {
        if wparam & SYSCOMMAND_MASK == SC_KEYMENU {
            MessageAction::SuppressKeyMenu
        } else {
            MessageAction::PassThrough
        }
    } else if message == WM_DESTROY {
        MessageAction::Quit
    } else if message == WM_NCHITTEST {
        MessageAction::ClientHitTest
    } else {
        MessageAction::PassThrough
    }
}

/// Classifies one window message for the overlay window.  `wparam` and
/// `lparam` are the message's two raw argument words, truncated to their
/// meaningful low double word by the shell.
pub fn classify_window_message(message: u32, wparam: u32, lparam: u32) -> (a: MessageAction)
    ensures
        a == classify_spec(message, wparam, lparam),
{
    if message == WM_PAINT {
        MessageAction::AcknowledgePaint
    } else if message == WM_SIZE {
        if wparam != SIZE_MINIMIZED {
            let width = loword(lparam);
            let height = hiword(lparam);
            MessageAction::ResizeRenderTarget { width, height }
        } else {
            MessageAction::PassThrough
        }
    } else if message == WM_SYSCOMMAND {
        if wparam & SYSCOMMAND_MASK == SC_KEYMENU {
            MessageAction::SuppressKeyMenu
        } else {
            MessageAction::PassThrough
        }
    } else if message == WM_DESTROY {
        MessageAction::Quit
    } else if message == WM_NCHITTEST {
        MessageAction::ClientHitTest
    } else {
        MessageAction::PassThrough
    }
}

/// No display-affinity restriction: the window appears in screen capture.
pub const WDA_NONE: u32 = 0x0;

/// The display affinity that excludes a window from screen capture.
pub const WDA_EXCLUDEFROMCAPTURE: u32 = 0x11;

/// The display affinity to request when toggling whether the overlay is
/// visible to screen capture.
pub fn display_affinity(hidden_from_capture: bool) -> (r: u32)
    ensures
        hidden_from_capture ==> r == WDA_EXCLUDEFROMCAPTURE,
        !hidden_from_capture ==> r == WDA_NONE,
{
    if hidden_from_capture {
        WDA_EXCLUDEFROMCAPTURE
    } else {
        WDA_NONE
    }
}

} // verus!
