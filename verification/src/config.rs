//! Settings. Launch-at-login on Windows is a registry write done by the
//! application; on macOS (Login Items) it is not implemented yet.

use vstd::prelude::*;
use vstd::string::StringExecFns;

verus! {

/// Launch-at-login as macOS offers it today: not implemented, so every
/// request is refused with a message saying so.
pub fn set_launch_at_login(_enabled: bool) -> (r: Result<(), String>)
    ensures
        r matches Err(m) && m@ == "launch-at-login is not implemented yet on macOS (M8)"@,
{
    Err(String::from_str("launch-at-login is not implemented yet on macOS (M8)"))
}

} // verus!
