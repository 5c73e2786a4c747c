//! Interpretation of the native module-state queries: whether the security
//! module is enabled, and whether multi-level security is enabled.

use vstd::prelude::*;

verus! {

/// What an enablement query answers for a native status: the native queries
/// report 0 for disabled, 1 for enabled, and anything else means the state
/// could not be determined.
pub open spec fn spec_enabled_status(status: i32) -> Option<bool> {
    if status == 0 {
        Some(false)
    } else if status == 1 {
        Some(true)
    } else {
        None
    }
}

/// Interprets the status returned by a native enablement query (the security
/// module as a whole, or its multi-level-security support).
pub fn interpret_enabled_status(status: i32) -> (r: Option<bool>)
    ensures
        r == spec_enabled_status(status),
{
    if status == 0 {
        Some(false)
    } else if status == 1 {
        Some(true)
    } else {
        None
    }
}

} // verus!
