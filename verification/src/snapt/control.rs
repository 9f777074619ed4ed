use vstd::prelude::*;

verus! {

/// The state the notification-area menu controls: whether hotkeys are
/// paused, and whether the application has been asked to exit.
#[derive(Clone, Copy, Debug, PartialEq, Eq, Structural)]
pub struct Control {
    pub do_pause: bool,
    pub do_exit: bool,
}

/// The state after the Pause command.
pub open spec fn paused_spec(control: Control) -> Control {
    Control { do_pause: true, do_exit: control.do_exit }
}

/// The state after the Resume command.
pub open spec fn resumed_spec(control: Control) -> Control {
    Control { do_pause: false, do_exit: control.do_exit }
}

/// The state after the Exit command.
pub open spec fn exited_spec(control: Control) -> Control {
    Control { do_pause: control.do_pause, do_exit: true }
}

impl Control {
    /// The state the application starts in: running, not exiting.
    pub fn new() -> (control: Self)
        ensures
            !control.do_pause,
            !control.do_exit,
    {
        Control { do_pause: false, do_exit: false }
    }
}

pub fn get_do_pause(control: &Control) -> (r: bool)
    ensures
        r == control.do_pause,
{
    control.do_pause
}

pub fn get_do_exit(control: &Control) -> (r: bool)
    ensures
        r == control.do_exit,
{
    control.do_exit
}

pub fn pause_app(control: &mut Control)
    ensures
        *final(control) == paused_spec(*old(control)),
{
    control.do_pause = true;
}

pub fn resume_app(control: &mut Control)
    ensures
        *final(control) == resumed_spec(*old(control)),
{
    control.do_pause = false;
}

pub fn exit_app(control: &mut Control)
    ensures
        *final(control) == exited_spec(*old(control)),
{
    control.do_exit = true;
}

/// Resuming undoes a pause: pausing a running application and resuming it
/// gives back the state it had.
pub proof fn lemma_resume_undoes_pause(control: Control)
    requires
        !control.do_pause,
    ensures
        resumed_spec(paused_spec(control)) == control,
{
}

/// An exit request is permanent: neither pausing nor resuming withdraws it,
/// and pausing or resuming never asks for an exit.
pub proof fn lemma_exit_is_permanent(control: Control)
    ensures
        paused_spec(exited_spec(control)).do_exit,
        resumed_spec(exited_spec(control)).do_exit,
        paused_spec(control).do_exit == control.do_exit,
        resumed_spec(control).do_exit == control.do_exit,
{
}

/// Pause and resume are idempotent, and the last of them decides whether
/// the application is paused.
pub proof fn lemma_last_command_decides_pause(control: Control)
    ensures
        paused_spec(paused_spec(control)) == paused_spec(control),
        resumed_spec(resumed_spec(control)) == resumed_spec(control),
        paused_spec(resumed_spec(control)).do_pause,
        !resumed_spec(paused_spec(control)).do_pause,
{
}

} // verus!
