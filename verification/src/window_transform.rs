use vstd::prelude::*;

verus! {

/// A point or an extent on the screen, as the window manager measures
/// window positions and sizes.
#[derive(Clone, Copy, Debug, PartialEq, Eq, Structural)]
pub struct WindowTransform {
    pub x: i32,
    pub y: i32,
}

impl View for WindowTransform {
    type V = (int, int);

    open spec fn view(&self) -> (int, int) {
        (self.x as int, self.y as int)
    }
}

impl WindowTransform {
    pub fn new(x: i32, y: i32) -> (t: Self)
        ensures
            t.x == x,
            t.y == y,
    {
        WindowTransform { x, y }
    }
}

} // verus!
