use snapt::app::snapt::Snapt;
use snapt::snapt::app::{App, APP_NAME};
use snapt::snapt::control::{exit_app, get_do_exit, get_do_pause, pause_app, resume_app, Control};
use snapt::snapt::interface::primary::{
    get_class_name, get_command_to_remove, get_icon, get_tooltip, get_window_title,
    handle_wnd_proc_notification_callback, handle_wnd_proc_wm_command, hi_word, lo_word, wnd_proc,
    MenuCommands, WindowMessageAction, NOTIFICATION_CALLBACK, NOTIFICATION_ID, WM_APP, WM_COMMAND,
    WM_CONTEXTMENU,
};
use snapt::snapt::registration::{get_registration_name, register_app_instance, ERROR_ALREADY_EXISTS};
use snapt::snapt::text::{encode_wide, encode_wide_with_nul};

fn wide(s: &str) -> Vec<u16> {
    s.encode_utf16().collect()
}

fn commands() -> MenuCommands {
    MenuCommands { pause: 40001, resume: 40002, exit: 40003 }
}

#[test]
fn control_starts_running() {
    let control = Control::new();
    assert!(!get_do_pause(&control));
    assert!(!get_do_exit(&control));
}

#[test]
fn control_pause_resume_exit() {
    let mut control = Control::new();
    pause_app(&mut control);
    assert!(get_do_pause(&control));
    assert!(!get_do_exit(&control));
    pause_app(&mut control);
    assert!(get_do_pause(&control));
    resume_app(&mut control);
    assert!(!get_do_pause(&control));
    assert_eq!(control, Control::new());
    exit_app(&mut control);
    assert!(get_do_exit(&control));
    pause_app(&mut control);
    resume_app(&mut control);
    assert!(get_do_exit(&control));
    assert!(!get_do_pause(&control));
}

#[test]
fn snapt_pause_and_resume() {
    let mut app = Snapt::new();
    assert!(!app.is_paused());
    app.pause_main_loop();
    assert!(app.is_paused());
    app.resume_main_loop();
    assert!(!app.is_paused());
    let _ = App::new();
}

#[test]
fn wide_strings() {
    assert_eq!(encode_wide("Snapt"), wide("Snapt"));
    assert_eq!(encode_wide(""), Vec::<u16>::new());
    assert_eq!(encode_wide_with_nul("ab"), vec![97, 98, 0]);
    assert_eq!(encode_wide("\u{00e9}\u{20ac}"), vec![0x00e9, 0x20ac]);
    assert_eq!(get_class_name(), [wide("PrimaryInterface"), vec![0]].concat());
    assert_eq!(get_icon(), [wide("main_icon"), vec![0]].concat());
    assert_eq!(get_window_title(), [wide(APP_NAME), vec![0]].concat());
    assert_eq!(get_registration_name(), [wide("Local\\$snapt$"), vec![0]].concat());
}

#[test]
fn tooltips() {
    let running = get_tooltip(false);
    assert_eq!(running.len(), 128);
    assert_eq!(&running[..5], &wide("Snapt")[..]);
    assert!(running[5..].iter().all(|&c| c == 0));

    let paused = get_tooltip(true);
    assert_eq!(&paused[..14], &wide("Snapt (Paused)")[..]);
    assert!(paused[14..].iter().all(|&c| c == 0));
}

#[test]
fn registration_decision() {
    assert_eq!(ERROR_ALREADY_EXISTS, 183);
    assert!(register_app_instance(0));
    assert!(register_app_instance(5));
    assert!(!register_app_instance(ERROR_ALREADY_EXISTS));
}

#[test]
fn message_words() {
    assert_eq!(lo_word(0x1234_5678), 0x5678);
    assert_eq!(hi_word(0x1234_5678), 0x1234);
    assert_eq!(lo_word(0), 0);
    assert_eq!(hi_word(0xffff_ffff), 0xffff);
}

#[test]
fn message_constants() {
    assert_eq!(WM_APP, 0x8000);
    assert_eq!(NOTIFICATION_CALLBACK, WM_APP + 1);
    assert_eq!(WM_COMMAND, 0x0111);
    assert_eq!(WM_CONTEXTMENU, 0x007B);
    assert_eq!(NOTIFICATION_ID, 3434773434);
}

#[test]
fn notification_context_menu_request() {
    let wparam: usize = (300 << 16) | 1200;
    let lparam: isize = ((NOTIFICATION_ID as u16 as isize) << 16) | WM_CONTEXTMENU as isize;
    assert_eq!(
        wnd_proc(NOTIFICATION_CALLBACK, wparam, lparam, true, &commands()),
        WindowMessageAction::ShowContextMenu { x: 1200, y: 300 }
    );
    assert_eq!(
        handle_wnd_proc_notification_callback(wparam, lparam),
        WindowMessageAction::ShowContextMenu { x: 1200, y: 300 }
    );
    // A left click (WM_LBUTTONUP) on the icon goes to the default procedure.
    assert_eq!(wnd_proc(NOTIFICATION_CALLBACK, wparam, 0x0202, true, &commands()), WindowMessageAction::Default);
}

#[test]
fn menu_commands() {
    let c = commands();
    assert_eq!(wnd_proc(WM_COMMAND, 40001, 0, true, &c), WindowMessageAction::PauseApp);
    assert_eq!(wnd_proc(WM_COMMAND, 40002, 0, true, &c), WindowMessageAction::ResumeApp);
    assert_eq!(wnd_proc(WM_COMMAND, 40003, 0, true, &c), WindowMessageAction::ExitApp);
    assert_eq!(wnd_proc(WM_COMMAND, (1 << 16) | 40003, 0, true, &c), WindowMessageAction::ExitApp);
    assert_eq!(wnd_proc(WM_COMMAND, 7, 0, true, &c), WindowMessageAction::Default);
    assert_eq!(wnd_proc(WM_COMMAND, 40001, 0, false, &c), WindowMessageAction::Ignore);
    assert_eq!(handle_wnd_proc_wm_command(40002, true, &c), WindowMessageAction::ResumeApp);
    assert_eq!(wnd_proc(0x0010, 40001, 0, true, &c), WindowMessageAction::Default);
}

#[test]
fn context_menu_hides_inapplicable_command() {
    let c = commands();
    assert_eq!(get_command_to_remove(true, &c), 40001);
    assert_eq!(get_command_to_remove(false, &c), 40002);
}
