//! Platform input fallbacks.
//!
//! On a host without the native facilities for cursor control, synthetic
//! clicks, or a global mouse hook, every operation reports the feature as
//! unavailable instead of attempting a partial simulation. A host with the
//! native facilities performs these operations itself and does not route
//! them through here.

use vstd::prelude::*;
use vstd::string::StringExecFns;

verus! {

/// Moves the OS cursor. Unavailable on this platform: always reports the
/// defined unavailable error.
pub fn set_cursor_position(x: i32, y: i32) -> (r: Result<(), String>)
    ensures
        r is Err,
        r matches Err(m) ==> m@ == "Cursor position setting not supported on this platform"@,
{
    let _ = x;
    let _ = y;
    Err(String::from_str("Cursor position setting not supported on this platform"))
}

/// Clicks the primary button at a screen point. Unavailable on this
/// platform: always reports the defined unavailable error.
pub fn click_at_position(x: i32, y: i32) -> (r: Result<(), String>)
    ensures
        r is Err,
        r matches Err(m) ==> m@ == "Mouse clicking not supported on this platform"@,
{
    let _ = x;
    let _ = y;
    Err(String::from_str("Mouse clicking not supported on this platform"))
}

/// Installs the system-wide mouse hook. Unavailable on this platform: the
/// installation reports unavailable, the caller degrades the feature and
/// continues.
pub fn setup_mouse_hook() -> (r: Result<(), String>)
    ensures
        r is Err,
        r matches Err(m) ==> m@ == "Mouse hook not supported on this platform"@,
{
    Err(String::from_str("Mouse hook not supported on this platform"))
}

} // verus!
