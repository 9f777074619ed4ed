use vstd::prelude::*;

use crate::snapt::app::APP_NAME;
use crate::snapt::text::{encode_wide, encode_wide_with_nul, wide_spec};

verus! {

/// The window class of the interface's hidden window.
pub const CLASS_NAME: &'static str = "PrimaryInterface";

/// The resource name of the notification-area icon.
pub const MAIN_ICON: &'static str = "main_icon";

/// What the tooltip shows after the application name while hotkeys are paused.
pub const PAUSED_TEXT: &'static str = " (Paused)";

/// The identifier of the application's notification-area icon.
pub const NOTIFICATION_ID: u32 = 3434773434u32;

/// The first message number free for applications (`WM_APP`).
pub const WM_APP: u32 = 0x8000u32;

/// The message the notification-area icon sends its window (`WM_APP + 1`).
pub const NOTIFICATION_CALLBACK: u32 = 0x8001u32;

/// The message a menu command sends (`WM_COMMAND`).
pub const WM_COMMAND: u32 = 0x0111u32;

/// The notification that the icon's context menu was requested (`WM_CONTEXTMENU`).
pub const WM_CONTEXTMENU: u32 = 0x007Bu32;

/// The length, in UTF-16 code units, of a notification tooltip buffer.
pub const TOOLTIP_LEN: usize = 128usize;

/// The identifiers of the commands of the notification-area context menu,
/// as the menu resource defines them.
#[derive(Clone, Copy, Debug, PartialEq, Eq, Structural)]
pub struct MenuCommands {
    pub pause: u16,
    pub resume: u16,
    pub exit: u16,
}

/// What the interface does with a window message.
#[derive(Clone, Copy, Debug, PartialEq, Eq, Structural)]
pub enum WindowMessageAction {
    /// Show the context menu at the given screen point; the message is handled.
    ShowContextMenu { x: i32, y: i32 },
    /// Pause the hotkeys and show the paused tooltip; the message is handled.
    PauseApp,
    /// Resume the hotkeys and show the running tooltip; the message is handled.
    ResumeApp,
    /// Ask the application to exit; the message is handled.
    ExitApp,
    /// The message is handled without doing anything.
    Ignore,
    /// The message goes to the system's default window procedure.
    Default,
}

/// The low-order 16 bits of a message parameter (`LOWORD`).
pub open spec fn low_word_spec(l: u32) -> u16 {
    (l % 0x10000) as u16
}

/// The high-order 16 bits of a message parameter (`HIWORD`).
pub open spec fn high_word_spec(l: u32) -> u16 {
    (l / 0x10000) as u16
}

/// What the interface does with a message from its notification-area icon:
/// a context-menu request shows the menu at the point the message carries.
pub open spec fn notification_action_spec(wparam: usize, lparam: isize) -> WindowMessageAction {
    if low_word_spec(lparam as u32) as u32 == WM_CONTEXTMENU {
        WindowMessageAction::ShowContextMenu {
            x: low_word_spec(wparam as u32) as i32,
            y: high_word_spec(wparam as u32) as i32,
        }
    } else {
        WindowMessageAction::Default
    }
}

/// What the interface does with a menu command, where `is_bound` tells
/// whether the interface is attached to its window.
pub open spec fn command_action_spec(
    wparam: usize,
    is_bound: bool,
    commands: MenuCommands,
) -> WindowMessageAction {
    if is_bound {
        let command = low_word_spec(wparam as u32);
        if command == commands.pause {
            WindowMessageAction::PauseApp
        } else if command == commands.resume {
            WindowMessageAction::ResumeApp
        } else if command == commands.exit {
            WindowMessageAction::ExitApp
        } else {
            WindowMessageAction::Default
        }
    } else {
        WindowMessageAction::Ignore
    }
}

/// What the interface does with the message `msg` and its parameters.
pub open spec fn message_action_spec(
    msg: u32,
    wparam: usize,
    lparam: isize,
    is_bound: bool,
    commands: MenuCommands,
) -> WindowMessageAction {
    if msg == NOTIFICATION_CALLBACK {
        notification_action_spec(wparam, lparam)
    } else if msg == WM_COMMAND {
        command_action_spec(wparam, is_bound, commands)
    } else {
        WindowMessageAction::Default
    }
}

/// The tooltip text: the application name, marked while hotkeys are paused.
pub open spec fn tooltip_text_spec(is_paused: bool) -> Seq<char> {
    if is_paused {
        APP_NAME@ + PAUSED_TEXT@
    } else {
        APP_NAME@
    }
}

/// A tooltip buffer holding `text` in UTF-16, terminated and padded with zeros.
pub open spec fn tooltip_buffer_spec(text: Seq<char>) -> Seq<u16> {
    Seq::new(
        TOOLTIP_LEN as nat,
        |i: int|
            if i < text.len() {
                wide_spec(text)[i]
            } else {
                0u16
            },
    )
}

pub fn lo_word(l: u32) -> (w: u16)
    ensures
        w == low_word_spec(l),
{
    assert((l & 0xffff) == l % 0x10000) by (bit_vector);
    (l & 0xffff) as u16
}

pub fn hi_word(l: u32) -> (w: u16)
    ensures
        w == high_word_spec(l),
{
    assert(((l >> 16) & 0xffff) == l / 0x10000) by (bit_vector);
    ((l >> 16) & 0xffff) as u16
}

/// What the interface's window procedure does with a message: a
/// notification-icon context-menu request shows the menu at the point the
/// message carries, a menu command of a bound interface pauses, resumes or
/// exits the application, a menu command of an unbound interface is ignored,
/// and everything else goes to the default window procedure.
pub fn wnd_proc(
    msg: u32,
    wparam: usize,
    lparam: isize,
    is_bound: bool,
    commands: &MenuCommands,
) -> (action: WindowMessageAction)
    ensures
        action == message_action_spec(msg, wparam, lparam, is_bound, *commands),
{
    if msg == NOTIFICATION_CALLBACK {
        handle_wnd_proc_notification_callback(wparam, lparam)
    } else if msg == WM_COMMAND {
        handle_wnd_proc_wm_command(wparam, is_bound, commands)
    } else {
        WindowMessageAction::Default
    }
}

/// The action for a message from the notification-area icon.
pub fn handle_wnd_proc_notification_callback(wparam: usize, lparam: isize) -> (action:
    WindowMessageAction)
    ensures
        action == notification_action_spec(wparam, lparam),
{
    if lo_word(lparam as u32) as u32 == WM_CONTEXTMENU {
        WindowMessageAction::ShowContextMenu {
            x: lo_word(wparam as u32) as i32,
            y: hi_word(wparam as u32) as i32,
        }
    } else {
        WindowMessageAction::Default
    }
}

/// The action for a menu command.
pub fn handle_wnd_proc_wm_command(wparam: usize, is_bound: bool, commands: &MenuCommands) -> (action:
    WindowMessageAction)
    ensures
        action == command_action_spec(wparam, is_bound, *commands),
{
    if is_bound {
        let command = lo_word(wparam as u32);
        if command == commands.pause {
            WindowMessageAction::PauseApp
        } else if command == commands.resume {
            WindowMessageAction::ResumeApp
        } else if command == commands.exit {
            WindowMessageAction::ExitApp
        } else {
            WindowMessageAction::Default
        }
    } else {
        WindowMessageAction::Ignore
    }
}

/// The context-menu command that does not apply in the current state and
/// is removed before the menu is shown: Pause while paused, Resume while
/// running.
pub fn get_command_to_remove(is_paused: bool, commands: &MenuCommands) -> (command: u16)
    ensures
        command == (if is_paused {
            commands.pause
        } else {
            commands.resume
        }),
{
    if is_paused {
        commands.pause
    } else {
        commands.resume
    }
}

/// The class name of the interface's window, zero-terminated.
pub fn get_class_name() -> (name: Vec<u16>)
    ensures
        name@ == wide_spec(CLASS_NAME@).push(0),
{
    proof {
        reveal_strlit("PrimaryInterface");
    }
    encode_wide_with_nul(CLASS_NAME)
}

/// The resource name of the notification-area icon, zero-terminated.
pub fn get_icon() -> (name: Vec<u16>)
    ensures
        name@ == wide_spec(MAIN_ICON@).push(0),
{
    proof {
        reveal_strlit("main_icon");
    }
    encode_wide_with_nul(MAIN_ICON)
}

/// The window title, zero-terminated.
pub fn get_window_title() -> (name: Vec<u16>)
    ensures
        name@ == wide_spec(APP_NAME@).push(0),
{
    proof {
        reveal_strlit("Snapt");
    }
    encode_wide_with_nul(APP_NAME)
}

/// The tooltip buffer of the notification-area icon: the application name,
/// followed by the paused mark while hotkeys are paused, in UTF-16,
/// terminated and padded with zeros.
pub fn get_tooltip(is_paused: bool) -> (tooltip: [u16; 128])
    ensures
        tooltip@ == tooltip_buffer_spec(tooltip_text_spec(is_paused)),
{
    proof {
        reveal_strlit("Snapt");
        reveal_strlit(" (Paused)");
    }
    let mut tooltip_vec = encode_wide(APP_NAME);
    if is_paused {
        let mut paused = encode_wide(PAUSED_TEXT);
        tooltip_vec.append(&mut paused);
    }
    assert(tooltip_vec@ =~= wide_spec(tooltip_text_spec(is_paused)));
    tooltip_vec.push(0);

    let mut tooltip_sz: [u16; 128] = [0u16; 128];
    let mut i: usize = 0;
    while i < tooltip_vec.len()
        invariant
            tooltip_vec@.len() <= TOOLTIP_LEN,
            i <= tooltip_vec@.len(),
            tooltip_vec@ == wide_spec(tooltip_text_spec(is_paused)).push(0),
            forall|j: int| 0 <= j < i ==> tooltip_sz@[j] == tooltip_vec@[j],
            forall|j: int| i <= j < TOOLTIP_LEN ==> tooltip_sz@[j] == 0,
        decreases tooltip_vec@.len() - i,
    {
        tooltip_sz[i] = tooltip_vec[i];
        i = i + 1;
    }
    assert(tooltip_sz@ =~= tooltip_buffer_spec(tooltip_text_spec(is_paused)));
    tooltip_sz
}

} // verus!
