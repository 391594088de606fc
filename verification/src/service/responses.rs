//! Request construction for the responses endpoint.

use vstd::prelude::*;

use crate::auth::header_view;
use crate::model::responses::{spec_input_items_query, ListInputItemsParams};
use crate::pipeline::{HttpMethod, RequestDescriptor};

verus! {

/// The path of one response.
pub fn response_path(response_id: &str) -> (r: String)
    ensures
        r@ == "/responses/"@ + response_id@,
{
    String::from_str("/responses/").concat(response_id)
}

/// The request for listing a response's input items: `GET
/// /responses/{id}/input_items`, with `limit` and `offset` as query
/// pairs, each exactly when set.
pub fn list_input_items_request(response_id: &str, params: &ListInputItemsParams) -> (r:
    RequestDescriptor)
    ensures
        r.method is Get,
        r.path@ == "/responses/"@ + response_id@ + "/input_items"@,
        header_view(r.query@) == spec_input_items_query(*params),
        r.body is Empty,
        r.override_timeout_ms is None,
{
    let path = String::from_str("/responses/").concat(response_id).concat("/input_items");
    RequestDescriptor::new(HttpMethod::Get, path.as_str()).with_query(params.to_query_params())
}

} // verus!
