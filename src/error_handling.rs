//! The message reported when a window call fails.

use vstd::prelude::*;

verus! {

/// The message for a failure while doing `action`, given the system's
/// description `os_error` of its last error.
pub open spec fn error_message(action: Seq<char>, os_error: Seq<char>) -> Seq<char> {
    "Error while "@ + action + ": "@ + os_error
}

/// Builds the message reported when a window call fails while doing
/// `action`; the caller supplies the text of the last system error and stops
/// with this message.
pub fn show_last_error(action: &str, os_error: &str) -> (r: String)
    ensures
        r@ == error_message(action@, os_error@),
{
    let mut r = String::from_str("Error while ");
    r.append(action);
    r.append(": ");
    r.append(os_error);
    r
}

} // verus!
