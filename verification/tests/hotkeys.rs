use snapt::hotkeys::hotkey::Hotkey;
use snapt::hotkeys::hotkey_profile::HotkeyProfile;
use snapt::hotkeys::keycode::Keycode;
use snapt::hotkeys::loader::{
    get_bottom_hotkey_default, get_full_hotkey_default, get_left_hotkey_default,
    get_right_hotkey_default, get_top_hotkey_default, load_hotkey_profile,
};
use snapt::window::window_state::WindowState;

#[test]
fn hotkey_matches_its_combination_in_any_order() {
    let hotkey = Hotkey::new(WindowState::Left, vec![Keycode::LControl, Keycode::LAlt, Keycode::Left]);
    assert!(hotkey.check_if_keys_match(&vec![Keycode::LControl, Keycode::LAlt, Keycode::Left]));
    assert!(hotkey.check_if_keys_match(&vec![Keycode::Left, Keycode::LControl, Keycode::LAlt]));
    assert!(!hotkey.check_if_keys_match(&vec![Keycode::LControl, Keycode::LAlt]));
    assert!(!hotkey.check_if_keys_match(&vec![Keycode::LControl, Keycode::LAlt, Keycode::Left, Keycode::Up]));
    assert!(!hotkey.check_if_keys_match(&vec![Keycode::LControl, Keycode::RAlt, Keycode::Left]));
    assert!(!hotkey.check_if_keys_match(&vec![]));
    assert_eq!(hotkey.execute_callback(), WindowState::Left);
}

#[test]
fn hotkey_counts_keys_not_distinct_keys() {
    let repeated = Hotkey::new(WindowState::Top, vec![Keycode::A, Keycode::A]);
    assert!(repeated.check_if_keys_match(&vec![Keycode::A, Keycode::B]));
    let pair = Hotkey::new(WindowState::Top, vec![Keycode::A, Keycode::B]);
    assert!(!pair.check_if_keys_match(&vec![Keycode::A, Keycode::A]));
    let empty = Hotkey::new(WindowState::Full, vec![]);
    assert!(empty.check_if_keys_match(&vec![]));
    assert!(!empty.check_if_keys_match(&vec![Keycode::A]));
}

#[test]
fn default_combinations() {
    assert_eq!(get_left_hotkey_default(), vec![Keycode::LControl, Keycode::LAlt, Keycode::Left]);
    assert_eq!(get_right_hotkey_default(), vec![Keycode::LControl, Keycode::LAlt, Keycode::Right]);
    assert_eq!(get_top_hotkey_default(), vec![Keycode::LControl, Keycode::LAlt, Keycode::Up]);
    assert_eq!(get_bottom_hotkey_default(), vec![Keycode::LControl, Keycode::LAlt, Keycode::Down]);
    assert_eq!(get_full_hotkey_default(), vec![Keycode::LControl, Keycode::LAlt, Keycode::Space]);
}

#[test]
fn default_profile_triggers_each_state() {
    let profile = load_hotkey_profile();
    let with = |k: Keycode| vec![Keycode::LControl, Keycode::LAlt, k];
    assert_eq!(profile.process_incoming_keys(&with(Keycode::Left)), Some(WindowState::Left));
    assert_eq!(profile.process_incoming_keys(&with(Keycode::Right)), Some(WindowState::Right));
    assert_eq!(profile.process_incoming_keys(&with(Keycode::Up)), Some(WindowState::Top));
    assert_eq!(profile.process_incoming_keys(&with(Keycode::Down)), Some(WindowState::Bottom));
    assert_eq!(profile.process_incoming_keys(&with(Keycode::Space)), Some(WindowState::Full));
    assert_eq!(
        profile.process_incoming_keys(&vec![Keycode::Space, Keycode::LAlt, Keycode::LControl]),
        Some(WindowState::Full)
    );
}

#[test]
fn default_profile_ignores_other_keys() {
    let profile = load_hotkey_profile();
    assert_eq!(profile.process_incoming_keys(&vec![]), None);
    assert_eq!(profile.process_incoming_keys(&vec![Keycode::Left]), None);
    assert_eq!(profile.process_incoming_keys(&vec![Keycode::LControl, Keycode::LAlt]), None);
    assert_eq!(profile.process_incoming_keys(&vec![Keycode::LControl, Keycode::LAlt, Keycode::Numpad1]), None);
    assert_eq!(
        profile.process_incoming_keys(&vec![Keycode::LControl, Keycode::LAlt, Keycode::Left, Keycode::Right]),
        None
    );
}

#[test]
fn first_matching_hotkey_wins() {
    let same = vec![Keycode::F1];
    let profile = HotkeyProfile::new(
        vec![Keycode::F2],
        same.clone(),
        same.clone(),
        vec![Keycode::F3],
        same.clone(),
    );
    assert_eq!(profile.process_incoming_keys(&vec![Keycode::F1]), Some(WindowState::Right));
    assert_eq!(profile.process_incoming_keys(&vec![Keycode::F3]), Some(WindowState::Bottom));
    assert_eq!(profile.process_incoming_keys(&vec![Keycode::F4]), None);
}
