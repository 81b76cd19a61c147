//! Points and rectangles in screen or client coordinates.

use vstd::prelude::*;

verus! {

/// A point.
#[derive(Clone, Copy, Debug, PartialEq, Eq, Structural)]
pub struct Point {
    pub x: i32,
    pub y: i32,
}

/// A rectangle; `right` and `bottom` lie just outside it.
#[derive(Clone, Copy, Debug, PartialEq, Eq, Structural)]
pub struct Rect {
    pub left: i32,
    pub top: i32,
    pub right: i32,
    pub bottom: i32,
}

/// The number nearest to the given one that a coordinate can hold.
pub open spec fn clamped(n: int) -> int {
    if n < i32::MIN {
        i32::MIN as int
    } else if n > i32::MAX {
        i32::MAX as int
    } else {
        n
    }
}

/// The number nearest to the given one that a coordinate can hold.
fn clamp(n: i64) -> (r: i32)
    ensures
        r == clamped(n as int),
{
    if n < i32::MIN as i64 {
        i32::MIN
    } else if n > i32::MAX as i64 {
        i32::MAX
    } else {
        n as i32
    }
}

impl Rect {
    /// The extents of the rectangle are numbers that a coordinate can hold.
    pub open spec fn fits(&self) -> bool {
        &&& i32::MIN <= self.right - self.left <= i32::MAX
        &&& i32::MIN <= self.bottom - self.top <= i32::MAX
    }

    /// Whether the extents of the rectangle are numbers that a coordinate can hold.
    pub fn extents_fit(&self) -> (r: bool)
        ensures
            r == self.fits(),
    {
        self.right.checked_sub(self.left).is_some() && self.bottom.checked_sub(self.top).is_some()
    }

    /// The width.
    pub fn width(&self) -> (r: i32)
        requires
            self.fits(),
        ensures
            r == self.right - self.left,
    {
        self.right - self.left
    }

    /// The height.
    pub fn height(&self) -> (r: i32)
        requires
            self.fits(),
        ensures
            r == self.bottom - self.top,
    {
        self.bottom - self.top
    }

    /// Width and height, each cut to what a coordinate can hold, for reports.
    pub fn extents_clamped(&self) -> (r: (i32, i32))
        ensures
            r.0 == clamped(self.right - self.left),
            r.1 == clamped(self.bottom - self.top),
    {
        (
            clamp(self.right as i64 - self.left as i64),
            clamp(self.bottom as i64 - self.top as i64),
        )
    }

    /// The rectangle lies inside the given one.
    pub open spec fn within(&self, outer: Rect) -> bool {
        &&& outer.left <= self.left <= self.right <= outer.right
        &&& outer.top <= self.top <= self.bottom <= outer.bottom
    }
}

/// A number that a coordinate can hold stays as it is; one that is too small or too great becomes
/// the least or the greatest that it can hold.
pub proof fn law_clamped_is_nearest(n: int)
    ensures
        -0x8000_0000 <= n <= 0x7FFF_FFFF ==> clamped(n) == n,
        n < -0x8000_0000 ==> clamped(n) == -0x8000_0000,
        n > 0x7FFF_FFFF ==> clamped(n) == 0x7FFF_FFFF,
{
}

/// The extents of a rectangle can be told as they are where neither of them leaves the 32 bits of a
/// coordinate.
pub proof fn law_extents_that_fit(rc: Rect)
    ensures
        rc.fits() <==> clamped(rc.right - rc.left) == rc.right - rc.left && clamped(
            rc.bottom - rc.top,
        ) == rc.bottom - rc.top,
{
}

} // verus!
