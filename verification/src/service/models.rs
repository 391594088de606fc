//! Request construction for the models endpoint.

use vstd::prelude::*;

use crate::auth::header_view;
use crate::model::models::{spec_list_models_query, ListModelsParams};
use crate::pipeline::{HttpMethod, RequestDescriptor};

verus! {

/// The request for listing models: `GET /models`, with the parameters'
/// query pairs in their fixed order when parameters are given.
pub fn list_models_request(params: &Option<ListModelsParams>) -> (r: RequestDescriptor)
    ensures
        r.method is Get,
        r.path@ == "/models"@,
        header_view(r.query@) == (match *params {
            Some(p) => spec_list_models_query(p),
            None => Seq::<(Seq<char>, Seq<char>)>::empty(),
        }),
        r.body is Empty,
        r.override_timeout_ms is None,
{
    let desc = RequestDescriptor::new(HttpMethod::Get, "/models");
    match params {
        Some(p) => desc.with_query(p.to_query_params()),
        None => {
            proof {
                assert(header_view(desc.query@) =~= Seq::<(Seq<char>, Seq<char>)>::empty());
            }
            desc
        },
    }
}

} // verus!
