//! Request construction for the threads endpoint.

use vstd::prelude::*;

verus! {

/// The path of one thread.
pub fn thread_path(thread_id: &str) -> (r: String)
    ensures
        r@ == "/threads/"@ + thread_id@,
{
    String::from_str("/threads/").concat(thread_id)
}

} // verus!
