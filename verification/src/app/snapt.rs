use vstd::prelude::*;

verus! {

/// The application loop's state: whether it is paused.
pub struct Snapt {
    do_pause: bool,
}

impl View for Snapt {
    type V = bool;

    closed spec fn view(&self) -> bool {
        self.do_pause
    }
}

impl Snapt {
    /// A running (not paused) application.
    pub fn new() -> (s: Snapt)
        ensures
            !s@,
    {
        Snapt { do_pause: false }
    }

    /// Whether the application is paused.
    pub fn is_paused(&self) -> (r: bool)
        ensures
            r == self@,
    {
        self.do_pause
    }

    pub fn pause_main_loop(&mut self)
        ensures
            final(self)@,
    {
        self.do_pause = true;
    }

    pub fn resume_main_loop(&mut self)
        ensures
            !final(self)@,
    {
        self.do_pause = false;
    }
}

} // verus!
