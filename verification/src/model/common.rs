//! Model types shared across the resource endpoints.

use vstd::prelude::*;

use crate::auth::header_view;
use crate::text::{i32_to_string, spec_i64_str};

verus! {

/// Pagination options common to the list endpoints: a page-size limit, a
/// sort order, and the `after` / `before` cursors.
#[derive(Debug, Clone)]
pub struct PaginationParams {
    /// A limit on the number of objects to be returned, between 1
    /// and 100; the server's default is 20.
    pub limit: Option<i32>,
    /// Sort order by creation timestamp: `asc` or `desc`.
    pub order: Option<String>,
    /// Cursor: the object ID after which the page starts.
    pub after: Option<String>,
    /// Cursor: the object ID before which the page ends.
    pub before: Option<String>,
}

/// The query pairs of pagination options: `limit`, `order`, `after`,
/// `before`, in that order, each present exactly when set.
pub open spec fn spec_pagination_query(p: PaginationParams) -> Seq<(Seq<char>, Seq<char>)> {
    (match p.limit {
        Some(l) => seq![("limit"@, spec_i64_str(l as int))],
        None => Seq::<(Seq<char>, Seq<char>)>::empty(),
    }) + (match p.order {
        Some(o) => seq![("order"@, o@)],
        None => Seq::<(Seq<char>, Seq<char>)>::empty(),
    }) + (match p.after {
        Some(a) => seq![("after"@, a@)],
        None => Seq::<(Seq<char>, Seq<char>)>::empty(),
    }) + (match p.before {
        Some(b) => seq![("before"@, b@)],
        None => Seq::<(Seq<char>, Seq<char>)>::empty(),
    })
}

impl PaginationParams {
    /// Creates empty pagination params.
    pub fn new() -> (r: Self)
        ensures
            r.limit is None,
            r.order is None,
            r.after is None,
            r.before is None,
    {
        PaginationParams { limit: None, order: None, after: None, before: None }
    }

    /// Sets the limit.
    pub fn with_limit(self, limit: i32) -> (r: Self)
        ensures
            r.limit == Some(limit),
            r.order == self.order,
            r.after == self.after,
            r.before == self.before,
    {
        PaginationParams { limit: Some(limit), ..self }
    }

    /// Sets the order.
    pub fn with_order(self, order: &str) -> (r: Self)
        ensures
            (r.order matches Some(o) && o@ == order@),
            r.limit == self.limit,
            r.after == self.after,
            r.before == self.before,
    {
        PaginationParams { order: Some(String::from_str(order)), ..self }
    }

    /// Sets the `after` cursor.
    pub fn with_after(self, after: &str) -> (r: Self)
        ensures
            (r.after matches Some(a) && a@ == after@),
            r.limit == self.limit,
            r.order == self.order,
            r.before == self.before,
    {
        PaginationParams { after: Some(String::from_str(after)), ..self }
    }

    /// Sets the `before` cursor.
    pub fn with_before(self, before: &str) -> (r: Self)
        ensures
            (r.before matches Some(b) && b@ == before@),
            r.limit == self.limit,
            r.order == self.order,
            r.after == self.after,
    {
        PaginationParams { before: Some(String::from_str(before)), ..self }
    }

    /// Converts the pagination params into query pairs, in the fixed
    /// order `limit`, `order`, `after`, `before`.
    pub fn to_query_params(&self) -> (r: Vec<(String, String)>)
        ensures
            header_view(r@) == spec_pagination_query(*self),
    {
        let mut r: Vec<(String, String)> = Vec::new();
        if let Some(l) = self.limit {
            r.push((String::from_str("limit"), i32_to_string(l)));
        }
        if let Some(o) = &self.order {
            r.push((String::from_str("order"), o.clone()));
        }
        if let Some(a) = &self.after {
            r.push((String::from_str("after"), a.clone()));
        }
        if let Some(b) = &self.before {
            r.push((String::from_str("before"), b.clone()));
        }
        proof {
            assert(header_view(r@) =~= spec_pagination_query(*self));
        }
        r
    }
}

impl Default for PaginationParams {
    /// Empty pagination params.
    fn default() -> (r: Self)
        ensures
            r.limit is None,
            r.order is None,
            r.after is None,
            r.before is None,
    {
        PaginationParams::new()
    }
}

} // verus!
