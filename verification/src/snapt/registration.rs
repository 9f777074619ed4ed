use vstd::prelude::*;

use crate::snapt::text::{encode_wide_with_nul, wide_spec};

verus! {

/// The name of the system object that marks a running instance.
pub const APP_REGISTRATION: &'static str = "Local\\$snapt$";

/// The system error code for an object that already exists (`ERROR_ALREADY_EXISTS`).
pub const ERROR_ALREADY_EXISTS: u32 = 183u32;

/// The name of the instance marker, zero-terminated.
pub fn get_registration_name() -> (name: Vec<u16>)
    ensures
        name@ == wide_spec(APP_REGISTRATION@).push(0),
{
    proof {
        reveal_strlit("Local\\$snapt$");
    }
    encode_wide_with_nul(APP_REGISTRATION)
}

/// Whether this process is the registered instance, given the error code
/// that creating the instance marker left: it is unless the marker existed
/// already.
pub fn register_app_instance(last_error: u32) -> (registered: bool)
    ensures
        registered == (last_error != ERROR_ALREADY_EXISTS),
{
    if last_error == ERROR_ALREADY_EXISTS {
        return false;
    }
    true
}

} // verus!
