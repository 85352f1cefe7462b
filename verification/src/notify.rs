//! The notification-state query: interpreting what the platform reports about
//! notification suppression (do-not-disturb, presentation mode, and the like).

use vstd::prelude::*;
use vstd::string::StringExecFns;

verus! {

/// Turns the platform's answer to the notification-state query into the result
/// handed to the UI layer. A platform that supports the query yields a raw
/// status code, passed through unchanged; a platform that does not (or a
/// failed query) yields the fixed "not supported" error text.
pub fn interpret_notification_query(raw: Option<i32>) -> (r: Result<i32, String>)
    ensures
        raw matches Some(code) ==> r == Ok::<i32, String>(code),
        raw is None ==> (r matches Err(msg) && msg@ == "Not supported on this machine."@),
{
    match raw {
        Some(code) => Ok(code),
        None => Err(String::from_str("Not supported on this machine.")),
    }
}

} // verus!
