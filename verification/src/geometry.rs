//! Displays and capture rectangles: which display contains the pointer, and
//! the clamped square region around it that a zoom capture rasterizes.

use vstd::prelude::*;

verus! {

/// A display's bounding rectangle in virtual-screen coordinates. The origin
/// may be negative on multi-monitor layouts.
#[derive(Debug, Clone, Copy, PartialEq, Eq, Structural)]
pub struct DisplayBounds {
    pub x: i32,
    pub y: i32,
    pub width: u32,
    pub height: u32,
}

/// A capture rectangle in a display's local coordinates, clamped so that it
/// never leaves the display.
#[derive(Debug, Clone, Copy, PartialEq, Eq, Structural)]
pub struct CaptureRegion {
    pub x: u32,
    pub y: u32,
    pub width: u32,
    pub height: u32,
}

impl DisplayBounds {
    /// A usable display: positive extent, small enough that its far edges
    /// still fit in signed 32-bit screen coordinates.
    pub open spec fn wf(self) -> bool {
        &&& 0 < self.width <= i32::MAX
        &&& 0 < self.height <= i32::MAX
        &&& self.x + self.width <= i32::MAX
        &&& self.y + self.height <= i32::MAX
    }

    /// The point `(px, py)` lies on this display.
    pub open spec fn spec_contains(self, px: int, py: int) -> bool {
        &&& self.x <= px < self.x + self.width
        &&& self.y <= py < self.y + self.height
    }

    /// Does the point `(px, py)` lie on this display?
    pub fn contains(&self, px: i32, py: i32) -> (b: bool)
        requires
            self.wf(),
        ensures
            b == self.spec_contains(px as int, py as int),
    {
        px >= self.x && px < self.x + self.width as i32 && py >= self.y && py < self.y
            + self.height as i32
    }
}

/// The capture rectangle for a pointer at `(cx, cy)` on display `d` and a
/// requested square edge `size`, as `(x, y, width, height)` in the display's
/// local coordinates: the top-left is the pointer's local position less half
/// the requested size, clamped at zero; each extent is the requested size,
/// shrunk to what remains of the display past the top-left.
pub open spec fn spec_capture_region(d: DisplayBounds, cx: int, cy: int, size: int) -> (
    int,
    int,
    int,
    int,
) {
    let rel_x = cx - d.x;
    let rel_y = cy - d.y;
    let half = size / 2;
    let gx = if rel_x - half < 0 {
        0
    } else {
        rel_x - half
    };
    let gy = if rel_y - half < 0 {
        0
    } else {
        rel_y - half
    };
    let gw = if size <= d.width - gx {
        size
    } else {
        d.width - gx
    };
    let gh = if size <= d.height - gy {
        size
    } else {
        d.height - gy
    };
    (gx, gy, gw, gh)
}

/// For every pointer position on the display, the clamped rectangle stays
/// within the display's bounds on both axes and never exceeds the requested
/// size.
pub proof fn lemma_capture_region_in_bounds(d: DisplayBounds, cx: int, cy: int, size: int)
    requires
        d.wf(),
        d.spec_contains(cx, cy),
        0 <= size,
    ensures
        ({
            let (gx, gy, gw, gh) = spec_capture_region(d, cx, cy, size);
            &&& 0 <= gx && 0 <= gy
            &&& gx + gw <= d.width
            &&& gy + gh <= d.height
            &&& gw <= size && gh <= size
            &&& 0 < gw || size == 0
            &&& 0 < gh || size == 0
        }),
{
}

/// A requested size strictly larger than the display, with the pointer at the
/// display's far corner: the returned extents shrink strictly below the
/// request, clamped to the space that remains.
pub proof fn lemma_corner_capture_shrinks(d: DisplayBounds, size: int)
    requires
        d.wf(),
        size > d.width,
        size > d.height,
    ensures
        ({
            let (gx, gy, gw, gh) = spec_capture_region(
                d,
                d.x + d.width - 1,
                d.y + d.height - 1,
                size,
            );
            &&& gw < size
            &&& gh < size
            &&& gw == if d.width <= 1 + size / 2 {
                d.width as int
            } else {
                1 + size / 2
            }
            &&& gh == if d.height <= 1 + size / 2 {
                d.height as int
            } else {
                1 + size / 2
            }
        }),
{
}

/// Compute the clamped capture rectangle around the pointer at `(cx, cy)` on
/// display `d`.
pub fn compute_capture_region(d: &DisplayBounds, cx: i32, cy: i32, size: u32) -> (r: CaptureRegion)
    requires
        d.wf(),
        d.spec_contains(cx as int, cy as int),
    ensures
        ({
            let (gx, gy, gw, gh) = spec_capture_region(*d, cx as int, cy as int, size as int);
            &&& r.x == gx
            &&& r.y == gy
            &&& r.width == gw
            &&& r.height == gh
        }),
        r.x + r.width <= d.width,
        r.y + r.height <= d.height,
        r.width <= size,
        r.height <= size,
{
    proof {
        lemma_capture_region_in_bounds(*d, cx as int, cy as int, size as int);
    }
    let half = (size / 2) as i32;
    let rel_x = cx - d.x;
    let rel_y = cy - d.y;
    let gx = if rel_x >= half {
        rel_x - half
    } else {
        0
    };
    let gy = if rel_y >= half {
        rel_y - half
    } else {
        0
    };
    let avail_w = d.width as i32 - gx;
    let avail_h = d.height as i32 - gy;
    let gw = if size <= avail_w as u32 {
        size
    } else {
        avail_w as u32
    };
    let gh = if size <= avail_h as u32 {
        size
    } else {
        avail_h as u32
    };
    CaptureRegion { x: gx as u32, y: gy as u32, width: gw, height: gh }
}

/// Find the first display whose bounds contain the point `(cx, cy)`.
pub fn find_containing_display(displays: &Vec<DisplayBounds>, cx: i32, cy: i32) -> (r: Option<
    usize,
>)
    requires
        forall|i: int| 0 <= i < displays@.len() ==> displays@[i].wf(),
    ensures
        match r {
            Some(i) => i < displays@.len() && displays@[i as int].spec_contains(
                cx as int,
                cy as int,
            ) && forall|j: int|
                0 <= j < i ==> !displays@[j].spec_contains(cx as int, cy as int),
            None => forall|j: int|
                0 <= j < displays@.len() ==> !displays@[j].spec_contains(cx as int, cy as int),
        },
{
    let mut i: usize = 0;
    while i < displays.len()
        invariant
            i <= displays@.len(),
            forall|k: int| 0 <= k < displays@.len() ==> displays@[k].wf(),
            forall|j: int| 0 <= j < i ==> !displays@[j].spec_contains(cx as int, cy as int),
        decreases displays@.len() - i,
    {
        if displays[i].contains(cx, cy) {
            return Some(i);
        }
        i = i + 1;
    }
    None
}

} // verus!
