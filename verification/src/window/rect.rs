use vstd::prelude::*;

verus! {

/// A screen rectangle given by its edges, in the layout the desktop reports
/// window bounds, frame bounds and monitor work areas.
#[derive(Clone, Copy, Debug, PartialEq, Eq, Structural)]
pub struct Rect {
    pub left: i32,
    pub top: i32,
    pub right: i32,
    pub bottom: i32,
}

/// A screen point.
#[derive(Clone, Copy, Debug, PartialEq, Eq, Structural)]
pub struct Point {
    pub x: i32,
    pub y: i32,
}

/// Whether a mathematical integer is representable as an `i32`.
pub open spec fn fits_i32(x: int) -> bool {
    i32::MIN <= x <= i32::MAX
}

/// `a + b` can be computed in `i32` without overflow.
pub open spec fn fits_sum2(a: int, b: int) -> bool {
    fits_i32(a + b)
}

/// `a + b + c`, evaluated left to right, can be computed in `i32` without overflow.
pub open spec fn fits_sum3(a: int, b: int, c: int) -> bool {
    fits_i32(a + b) && fits_i32(a + b + c)
}

/// Integer division by two that rounds toward zero, as `i32 / 2` does.
pub open spec fn half_toward_zero(x: int) -> int {
    if x >= 0 {
        x / 2
    } else {
        -((-x) / 2)
    }
}

} // verus!
