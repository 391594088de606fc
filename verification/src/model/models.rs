//! Models-endpoint data structures: listing the models available through
//! the gateway.

use vstd::prelude::*;

use crate::auth::header_view;
use crate::text::{i32_to_string, spec_i64_str};

verus! {

/// Sort field for model listings.
#[derive(Debug, Clone, Copy, PartialEq, Eq)]
pub enum ModelSortField {
    /// Sort by model name.
    Name,
    /// Sort by provider.
    Provider,
    /// Sort by AI service.
    AiService,
}

/// The wire name of a sort field.
pub open spec fn spec_sort_field_value(f: ModelSortField) -> Seq<char> {
    match f {
        ModelSortField::Name => "name"@,
        ModelSortField::Provider => "provider"@,
        ModelSortField::AiService => "ai_service"@,
    }
}

impl ModelSortField {
    /// The value this field takes in a query string.
    pub fn query_value(&self) -> (r: &'static str)
        ensures
            r@ == spec_sort_field_value(*self),
    {
        match self {
            ModelSortField::Name => "name",
            ModelSortField::Provider => "provider",
            ModelSortField::AiService => "ai_service",
        }
    }
}

impl Default for ModelSortField {
    /// Sorting by name.
    fn default() -> (r: Self)
        ensures
            r is Name,
    {
        ModelSortField::Name
    }
}

/// Sort order for model listings.
#[derive(Debug, Clone, Copy, PartialEq, Eq)]
pub enum SortOrder {
    /// Ascending order.
    Asc,
    /// Descending order.
    Desc,
}

/// The wire name of a sort order.
pub open spec fn spec_sort_order_value(o: SortOrder) -> Seq<char> {
    match o {
        SortOrder::Asc => "asc"@,
        SortOrder::Desc => "desc"@,
    }
}

impl SortOrder {
    /// The value this order takes in a query string.
    pub fn query_value(&self) -> (r: &'static str)
        ensures
            r@ == spec_sort_order_value(*self),
    {
        match self {
            SortOrder::Asc => "asc",
            SortOrder::Desc => "desc",
        }
    }
}

impl Default for SortOrder {
    /// Ascending order.
    fn default() -> (r: Self)
        ensures
            r is Asc,
    {
        SortOrder::Asc
    }
}

/// Parameters for listing models.
#[derive(Debug, Clone)]
pub struct ListModelsParams {
    /// Filter models by AI service, e.g. `openai`.
    pub ai_service: Option<String>,
    /// Filter models by provider.
    pub provider: Option<String>,
    /// The maximum number of models to return.
    pub limit: Option<i32>,
    /// The number of models to skip before collecting the result set.
    pub offset: Option<i32>,
    /// The field to sort the results by.
    pub sort: Option<ModelSortField>,
    /// The order to sort the results in.
    pub order: Option<SortOrder>,
}

/// The query pairs of a model listing, in the fixed order `ai_service`,
/// `provider`, `limit`, `offset`, `sort`, `order`, each present exactly
/// when set.
pub open spec fn spec_list_models_query(p: ListModelsParams) -> Seq<(Seq<char>, Seq<char>)> {
    (match p.ai_service {
        Some(s) => seq![("ai_service"@, s@)],
        None => Seq::<(Seq<char>, Seq<char>)>::empty(),
    }) + (match p.provider {
        Some(s) => seq![("provider"@, s@)],
        None => Seq::<(Seq<char>, Seq<char>)>::empty(),
    }) + (match p.limit {
        Some(l) => seq![("limit"@, spec_i64_str(l as int))],
        None => Seq::<(Seq<char>, Seq<char>)>::empty(),
    }) + (match p.offset {
        Some(o) => seq![("offset"@, spec_i64_str(o as int))],
        None => Seq::<(Seq<char>, Seq<char>)>::empty(),
    }) + (match p.sort {
        Some(f) => seq![("sort"@, spec_sort_field_value(f))],
        None => Seq::<(Seq<char>, Seq<char>)>::empty(),
    }) + (match p.order {
        Some(o) => seq![("order"@, spec_sort_order_value(o))],
        None => Seq::<(Seq<char>, Seq<char>)>::empty(),
    })
}

impl ListModelsParams {
    /// Converts the parameters into query pairs, in the fixed order
    /// `ai_service`, `provider`, `limit`, `offset`, `sort`, `order`.
    #[verifier::rlimit(50)]
    pub fn to_query_params(&self) -> (r: Vec<(String, String)>)
        ensures
            header_view(r@) == spec_list_models_query(*self),
    {
        let mut r: Vec<(String, String)> = Vec::new();
        if let Some(s) = &self.ai_service {
            r.push((String::from_str("ai_service"), s.clone()));
        }
        if let Some(s) = &self.provider {
            r.push((String::from_str("provider"), s.clone()));
        }
        if let Some(l) = self.limit {
            r.push((String::from_str("limit"), i32_to_string(l)));
        }
        if let Some(o) = self.offset {
            r.push((String::from_str("offset"), i32_to_string(o)));
        }
        if let Some(f) = &self.sort {
            r.push((String::from_str("sort"), String::from_str(f.query_value())));
        }
        if let Some(o) = &self.order {
            r.push((String::from_str("order"), String::from_str(o.query_value())));
        }
        proof {
            assert(header_view(r@) =~= spec_list_models_query(*self));
        }
        r
    }
}

impl Default for ListModelsParams {
    /// Parameters with no filter set.
    fn default() -> (r: Self)
        ensures
            r.ai_service is None,
            r.provider is None,
            r.limit is None,
            r.offset is None,
            r.sort is None,
            r.order is None,
    {
        ListModelsParams {
            ai_service: None,
            provider: None,
            limit: None,
            offset: None,
            sort: None,
            order: None,
        }
    }
}

/// A model offering that can be used with the API.
#[derive(Debug, Clone)]
pub struct Model {
    /// The model identifier, referenced in the API endpoints.
    pub id: String,
    /// The Unix timestamp (in seconds) when the model was created.
    pub created: i64,
    /// The object type, always `model`.
    pub object: String,
    /// The organization that owns the model.
    pub owned_by: String,
}

/// Response from listing models.
#[derive(Debug, Clone)]
pub struct ListModelsResponse {
    /// The object type, always `list`.
    pub object: String,
    /// The model objects.
    pub data: Vec<Model>,
}

} // verus!
