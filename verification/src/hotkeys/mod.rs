pub mod keycode;
pub mod hotkey;
pub mod hotkey_profile;
pub mod loader;
