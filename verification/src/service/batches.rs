//! Request construction for the batches endpoint.

use vstd::prelude::*;

verus! {

/// The path of one batch.
pub fn batch_path(batch_id: &str) -> (r: String)
    ensures
        r@ == "/batches/"@ + batch_id@,
{
    String::from_str("/batches/").concat(batch_id)
}

/// The path that cancels one batch.
pub fn batch_cancel_path(batch_id: &str) -> (r: String)
    ensures
        r@ == "/batches/"@ + batch_id@ + "/cancel"@,
{
    String::from_str("/batches/").concat(batch_id).concat("/cancel")
}

} // verus!
