use vstd::prelude::*;

use crate::window::rect::{Rect, fits_i32};

verus! {

/// A window placement: the position of its top-left corner and its size.
#[derive(Clone, Copy, Debug, PartialEq, Eq, Structural)]
pub struct WindowTransform {
    pub pos_x: i32,
    pub pos_y: i32,
    pub size_x: i32,
    pub size_y: i32,
}

impl View for WindowTransform {
    type V = (int, int, int, int);

    open spec fn view(&self) -> (int, int, int, int) {
        (self.pos_x as int, self.pos_y as int, self.size_x as int, self.size_y as int)
    }
}

/// The rectangle covered by a placement given as `(pos_x, pos_y, size_x, size_y)`.
pub open spec fn transform_rect_spec(t: (int, int, int, int)) -> (int, int, int, int) {
    (t.0, t.1, t.0 + t.2, t.1 + t.3)
}

/// The placement that covers a rectangle: its top-left corner and its extent.
pub open spec fn rect_transform_spec(r: Rect) -> (int, int, int, int) {
    (r.left as int, r.top as int, r.right - r.left, r.bottom - r.top)
}

/// The edges of a rectangle as `(left, top, right, bottom)`.
pub open spec fn rect_edges(r: Rect) -> (int, int, int, int) {
    (r.left as int, r.top as int, r.right as int, r.bottom as int)
}

impl WindowTransform {
    pub fn new(pos_x: i32, pos_y: i32, size_x: i32, size_y: i32) -> (t: Self)
        ensures
            t.pos_x == pos_x,
            t.pos_y == pos_y,
            t.size_x == size_x,
            t.size_y == size_y,
    {
        WindowTransform { pos_x, pos_y, size_x, size_y }
    }

    /// The rectangle that this placement covers.
    pub fn to_rect(&self) -> (r: Rect)
        requires
            fits_i32(self.pos_x + self.size_x),
            fits_i32(self.pos_y + self.size_y),
        ensures
            rect_edges(r) == transform_rect_spec(self@),
    {
        Rect {
            left: self.pos_x,
            right: self.pos_x + self.size_x,
            top: self.pos_y,
            bottom: self.pos_y + self.size_y,
        }
    }
}

/// The placement that covers a rectangle covers exactly that rectangle.
pub proof fn lemma_rect_round_trip(r: Rect)
    ensures
        transform_rect_spec(rect_transform_spec(r)) == rect_edges(r),
{
}

} // verus!
