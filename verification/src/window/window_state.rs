use vstd::prelude::*;

verus! {

/// The screen area a hotkey sends the foreground window to.
#[derive(Clone, Copy, Debug, PartialEq, Eq, Structural)]
pub enum WindowState {
    Left,
    Right,
    Top,
    Bottom,
    Full,
}

/// The name of a window state.
pub open spec fn window_state_name(s: WindowState) -> Seq<char> {
    match s {
        WindowState::Left => "Left"@,
        WindowState::Right => "Right"@,
        WindowState::Top => "Top"@,
        WindowState::Bottom => "Bottom"@,
        WindowState::Full => "Full"@,
    }
}

impl WindowState {
    /// The name of the window state, as it is displayed.
    pub fn to_string(&self) -> (s: String)
        ensures
            s@ == window_state_name(*self),
    {
        match self {
            WindowState::Left => "Left".to_owned(),
            WindowState::Right => "Right".to_owned(),
            WindowState::Top => "Top".to_owned(),
            WindowState::Bottom => "Bottom".to_owned(),
            WindowState::Full => "Full".to_owned(),
        }
    }
}

} // verus!
