//! Plain-value geometry: window bounds in screen coordinates and the overlay
//! placement derived from them.

use vstd::prelude::*;

verus! {

/// A window rectangle in screen coordinates, as the operating system reports
/// it: `left`/`top` is the upper-left corner, `right`/`bottom` the
/// lower-right corner (exclusive).
#[derive(Clone, Copy, Debug, PartialEq, Eq, Structural)]
pub struct Bounds {
    pub left: i32,
    pub top: i32,
    pub right: i32,
    pub bottom: i32,
}

impl Bounds {
    /// An ordered rectangle whose width and height fit in `i32`.
    pub open spec fn well_formed(self) -> bool {
        &&& self.left <= self.right
        &&& self.top <= self.bottom
        &&& self.right - self.left <= i32::MAX
        &&& self.bottom - self.top <= i32::MAX
    }

    /// True of the all-zero rectangle, which enumeration treats as a
    /// placeholder for a window that is not meant to be shown.
    pub open spec fn is_zero(self) -> bool {
        self.left == 0 && self.top == 0 && self.right == 0 && self.bottom == 0
    }

}

/// The published size of the overlay window; consumers poll it for layout
/// decisions.
#[derive(Clone, Copy, Debug, PartialEq, Eq, Structural)]
pub struct Rect {
    pub width: i32,
    pub high: i32,
}

/// Where the overlay window must be placed to cover the tracked window:
/// position of its upper-left corner and its size, all in screen
/// coordinates.  Width and height are never negative; a zero-area value
/// means the target is degenerate and there is nothing to cover yet.
#[derive(Clone, Copy, Debug, PartialEq, Eq, Structural)]
pub struct OverlayGeometry {
    pub x: i32,
    pub y: i32,
    pub width: i32,
    pub height: i32,
}

impl OverlayGeometry {
    /// The invariant every published placement satisfies.
    pub open spec fn well_formed(self) -> bool {
        self.width >= 0 && self.height >= 0
    }

    /// The placement that covers `b`: the corner is kept and a negative
    /// height (a degenerate rectangle after the focus nudge) is clamped to
    /// zero so the published size never goes negative.
    pub open spec fn spec_from_bounds(b: Bounds) -> OverlayGeometry {
        OverlayGeometry {
            x: b.left,
            y: b.top,
            width: (b.right - b.left) as i32,
            height: if b.bottom >= b.top { (b.bottom - b.top) as i32 } else { 0 },
        }
    }

    /// Computes the placement covering `b`.
    pub fn from_bounds(b: &Bounds) -> (g: OverlayGeometry)
        requires
            b.left <= b.right,
            b.right - b.left <= i32::MAX,
            b.bottom - b.top <= i32::MAX,
        ensures
            g == Self::spec_from_bounds(*b),
            g.well_formed(),
    {
        let height: i32 = if b.bottom >= b.top { b.bottom - b.top } else { 0 };
        OverlayGeometry { x: b.left, y: b.top, width: b.right - b.left, height }
    }

    /// The size snapshot derived from a placement.
    pub open spec fn spec_size(self) -> Rect {
        Rect { width: self.width, high: self.height }
    }

    /// The size snapshot that is published to consumers.
    pub fn size(&self) -> (r: Rect)
        ensures
            r == self.spec_size(),
    {
        Rect { width: self.width, high: self.height }
    }
}

} // verus!
