//! Responses-endpoint data structures.

use vstd::prelude::*;

use crate::auth::header_view;
use crate::text::{i32_to_string, spec_i64_str};

verus! {

/// Parameters for listing the input items of a response.
#[derive(Debug, Clone)]
pub struct ListInputItemsParams {
    /// Maximum number of items to return.
    pub limit: Option<i32>,
    /// Number of items to skip.
    pub offset: Option<i32>,
}

/// The query pairs of an input-item listing: `limit` then `offset`, each
/// present exactly when set.
pub open spec fn spec_input_items_query(p: ListInputItemsParams) -> Seq<(Seq<char>, Seq<char>)> {
    (match p.limit {
        Some(l) => seq![("limit"@, spec_i64_str(l as int))],
        None => Seq::<(Seq<char>, Seq<char>)>::empty(),
    }) + (match p.offset {
        Some(o) => seq![("offset"@, spec_i64_str(o as int))],
        None => Seq::<(Seq<char>, Seq<char>)>::empty(),
    })
}

impl ListInputItemsParams {
    /// Converts the parameters into query pairs, `limit` before
    /// `offset`.
    pub fn to_query_params(&self) -> (r: Vec<(String, String)>)
        ensures
            header_view(r@) == spec_input_items_query(*self),
    {
        let mut r: Vec<(String, String)> = Vec::new();
        if let Some(l) = self.limit {
            r.push((String::from_str("limit"), i32_to_string(l)));
        }
        if let Some(o) = self.offset {
            r.push((String::from_str("offset"), i32_to_string(o)));
        }
        proof {
            assert(header_view(r@) =~= spec_input_items_query(*self));
        }
        r
    }
}

impl Default for ListInputItemsParams {
    /// Parameters with nothing set.
    fn default() -> (r: Self)
        ensures
            r.limit is None,
            r.offset is None,
    {
        ListInputItemsParams { limit: None, offset: None }
    }
}

} // verus!
