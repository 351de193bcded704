//! Validation of the truncation length given at startup.
//!
//! The command-line collaborator parses the truncation argument to a
//! non-negative integer; this module decides whether that value is usable.
//! `0` means unbounded and any value of 4 or more is a usable limit, but
//! `1`, `2` and `3` would leave no room for the `...` suffix and are
//! rejected before any other work happens.

use vstd::prelude::*;

verus! {

/// Accepts a truncation value unless it is `1`, `2` or `3` — however the
/// argument spelled it; those values are rejected with a message naming the
/// acceptable ones.
pub fn check_truncate(n: usize) -> (r: Result<(), String>)
    ensures
        r is Err <==> 1 <= n <= 3,
        r matches Err(msg) ==> msg@ == "Acceptable values are 0, 4, 5, ..."@,
{
    if 1 <= n && n <= 3 {
        Err(String::from_str("Acceptable values are 0, 4, 5, ..."))
    } else {
        Ok(())
    }
}

} // verus!
