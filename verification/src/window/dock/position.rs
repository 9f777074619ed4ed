use vstd::prelude::*;

verus! {

/// The screen area a window can be docked to.
#[derive(Clone, Copy, Debug, PartialEq, Eq, Structural)]
pub enum Position {
    Left,
    Right,
    Top,
    Bottom,
    Full,
}

/// The position on the other side of the screen; the full screen has none.
pub open spec fn opposite_spec(p: Position) -> Option<Position> {
    match p {
        Position::Left => Some(Position::Right),
        Position::Right => Some(Position::Left),
        Position::Top => Some(Position::Bottom),
        Position::Bottom => Some(Position::Top),
        Position::Full => None,
    }
}

/// The name of a position.
pub open spec fn position_name(p: Position) -> Seq<char> {
    match p {
        Position::Left => "Left"@,
        Position::Right => "Right"@,
        Position::Top => "Top"@,
        Position::Bottom => "Bottom"@,
        Position::Full => "Full"@,
    }
}

impl Position {
    pub fn get_opposite_position(&self) -> (r: Option<Position>)
        ensures
            r == opposite_spec(*self),
    {
        match self {
            Position::Left => Some(Position::Right),
            Position::Right => Some(Position::Left),
            Position::Top => Some(Position::Bottom),
            Position::Bottom => Some(Position::Top),
            _ => None,
        }
    }

    /// The name of the position, as it is displayed.
    pub fn to_string(&self) -> (s: String)
        ensures
            s@ == position_name(*self),
    {
        match self {
            Position::Left => "Left".to_owned(),
            Position::Right => "Right".to_owned(),
            Position::Top => "Top".to_owned(),
            Position::Bottom => "Bottom".to_owned(),
            Position::Full => "Full".to_owned(),
        }
    }
}

/// Taking the opposite side twice comes back to the starting position, and
/// only the full screen has no opposite.
pub proof fn lemma_opposite_is_involution(p: Position)
    ensures
        opposite_spec(p) is None <==> p == Position::Full,
        opposite_spec(p) matches Some(q) ==> q != p && opposite_spec(q) == Some(p),
{
}

} // verus!
