//! Request construction for the feedback endpoint.

use vstd::prelude::*;

verus! {

/// The path of one feedback entry.
pub fn feedback_path(feedback_id: &str) -> (r: String)
    ensures
        r@ == "/feedback/"@ + feedback_id@,
{
    String::from_str("/feedback/").concat(feedback_id)
}

} // verus!
