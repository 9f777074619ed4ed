use vstd::prelude::*;

use crate::window::dock::position::Position;

verus! {

/// The screen area a window can be docked to, as the dock manager names it.
#[derive(Clone, Copy, Debug, PartialEq, Eq, Structural)]
pub enum DockPosition {
    Left,
    Right,
    Top,
    Bottom,
    Full,
}

/// The docking position of the same name.
pub open spec fn as_position(p: DockPosition) -> Position {
    match p {
        DockPosition::Left => Position::Left,
        DockPosition::Right => Position::Right,
        DockPosition::Top => Position::Top,
        DockPosition::Bottom => Position::Bottom,
        DockPosition::Full => Position::Full,
    }
}

/// The name of a dock position.
pub open spec fn dock_position_name(p: DockPosition) -> Seq<char> {
    match p {
        DockPosition::Left => "Left"@,
        DockPosition::Right => "Right"@,
        DockPosition::Top => "Top"@,
        DockPosition::Bottom => "Bottom"@,
        DockPosition::Full => "Full"@,
    }
}

impl DockPosition {
    /// The name of the dock position, as it is displayed.
    pub fn to_string(&self) -> (s: String)
        ensures
            s@ == dock_position_name(*self),
    {
        match self {
            DockPosition::Left => "Left".to_owned(),
            DockPosition::Right => "Right".to_owned(),
            DockPosition::Top => "Top".to_owned(),
            DockPosition::Bottom => "Bottom".to_owned(),
            DockPosition::Full => "Full".to_owned(),
        }
    }
}

} // verus!
