use vstd::prelude::*;

use crate::hotkeys::hotkey_profile::{HotkeyProfile, profile_spec};
use crate::hotkeys::keycode::Keycode;
use crate::window::window_state::WindowState;

verus! {

/// The default combination for a window change: left Control, left Alt and
/// the key that names the change.
pub open spec fn default_combination(key: Keycode) -> Seq<Keycode> {
    seq![Keycode::LControl, Keycode::LAlt, key]
}

/// The hotkey profile used when none is configured: left Control and left
/// Alt together with an arrow key dock to that side, with Space to the full
/// screen.
pub open spec fn default_profile_spec() -> Seq<(WindowState, Seq<Keycode>)> {
    profile_spec(
        default_combination(Keycode::Left),
        default_combination(Keycode::Right),
        default_combination(Keycode::Up),
        default_combination(Keycode::Down),
        default_combination(Keycode::Space),
    )
}

/// The hotkey profile the application runs with.
pub fn load_hotkey_profile() -> (p: HotkeyProfile)
    ensures
        p@ == default_profile_spec(),
{
    load_default_hotkey_profile()
}

fn load_default_hotkey_profile() -> (p: HotkeyProfile)
    ensures
        p@ == default_profile_spec(),
{
    HotkeyProfile::new(
        get_left_hotkey_default(),
        get_right_hotkey_default(),
        get_top_hotkey_default(),
        get_bottom_hotkey_default(),
        get_full_hotkey_default(),
    )
}

pub fn get_left_hotkey_default() -> (keys: Vec<Keycode>)
    ensures
        keys@ == default_combination(Keycode::Left),
{
    vec![Keycode::LControl, Keycode::LAlt, Keycode::Left]
}

pub fn get_right_hotkey_default() -> (keys: Vec<Keycode>)
    ensures
        keys@ == default_combination(Keycode::Right),
{
    vec![Keycode::LControl, Keycode::LAlt, Keycode::Right]
}

pub fn get_top_hotkey_default() -> (keys: Vec<Keycode>)
    ensures
        keys@ == default_combination(Keycode::Up),
{
    vec![Keycode::LControl, Keycode::LAlt, Keycode::Up]
}

pub fn get_bottom_hotkey_default() -> (keys: Vec<Keycode>)
    ensures
        keys@ == default_combination(Keycode::Down),
{
    vec![Keycode::LControl, Keycode::LAlt, Keycode::Down]
}

pub fn get_full_hotkey_default() -> (keys: Vec<Keycode>)
    ensures
        keys@ == default_combination(Keycode::Space),
{
    vec![Keycode::LControl, Keycode::LAlt, Keycode::Space]
}

} // verus!
