use vstd::prelude::*;

verus! {

/// The name of the application, as shown in its window title and tooltip.
pub const APP_NAME: &'static str = "Snapt";

/// The application.
pub struct App {}

impl App {
    pub fn new() -> App {
        App {}
    }
}

} // verus!
