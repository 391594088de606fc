//! Request construction for the runs endpoint: paths for runs and run
//! steps nested under threads, with their raw pagination query.
//!
//! These listings carry their query in the path text itself, written as
//! `key=value` pairs joined by `&` — values go in verbatim, as the
//! callers supply identifiers and fixed order words.

use vstd::prelude::*;

use crate::text::{i32_to_string, spec_i64_str};

verus! {

/// The view of an optional borrowed string.
pub open spec fn opt_sview(o: Option<&str>) -> Option<Seq<char>> {
    match o {
        Some(s) => Some(s@),
        None => None,
    }
}

/// The raw `key=value` items of a pagination query: `limit`, `order`,
/// `after`, `before`, in that order, each present exactly when set.
pub open spec fn spec_raw_pagination_items(
    limit: Option<i32>,
    order: Option<Seq<char>>,
    after: Option<Seq<char>>,
    before: Option<Seq<char>>,
) -> Seq<Seq<char>> {
    (match limit {
        Some(l) => seq!["limit="@ + spec_i64_str(l as int)],
        None => Seq::<Seq<char>>::empty(),
    }) + (match order {
        Some(o) => seq!["order="@ + o],
        None => Seq::<Seq<char>>::empty(),
    }) + (match after {
        Some(a) => seq!["after="@ + a],
        None => Seq::<Seq<char>>::empty(),
    }) + (match before {
        Some(b) => seq!["before="@ + b],
        None => Seq::<Seq<char>>::empty(),
    })
}

/// Items joined by `&`.
pub open spec fn spec_join_amp(items: Seq<Seq<char>>) -> Seq<char>
    decreases items.len(),
{
    if items.len() == 0 {
        Seq::empty()
    } else if items.len() == 1 {
        items[0]
    } else {
        spec_join_amp(items.drop_last()) + "&"@ + items.last()
    }
}

/// The query suffix of a path: nothing when there are no items, else `?`
/// and the items joined by `&`.
pub open spec fn spec_raw_query_suffix(items: Seq<Seq<char>>) -> Seq<char> {
    if items.len() == 0 {
        Seq::empty()
    } else {
        "?"@ + spec_join_amp(items)
    }
}

fn join_amp(items: Vec<String>) -> (r: String)
    ensures
        r@ == spec_join_amp(Seq::new(items@.len(), |i: int| items@[i]@)),
{
    let ghost all = Seq::new(items@.len(), |i: int| items@[i]@);
    let mut r = String::new();
    let mut i: usize = 0;
    while i < items.len()
        invariant
            i <= items@.len(),
            all == Seq::new(items@.len(), |j: int| items@[j]@),
            r@ == spec_join_amp(all.subrange(0, i as int)),
        decreases items@.len() - i,
    {
        if i > 0 {
            r = r.concat("&");
        }
        r = r.concat(items[i].as_str());
        proof {
            let sub1 = all.subrange(0, i as int + 1);
            assert(sub1.drop_last() =~= all.subrange(0, i as int));
            assert(r@ =~= spec_join_amp(sub1));
        }
        i = i + 1;
    }
    proof {
        assert(all.subrange(0, items@.len() as int) =~= all);
    }
    r
}

/// The raw query suffix of pagination options.
fn raw_pagination_suffix(
    limit: Option<i32>,
    order: Option<&str>,
    after: Option<&str>,
    before: Option<&str>,
) -> (r: String)
    ensures
        r@ == spec_raw_query_suffix(
            spec_raw_pagination_items(limit, opt_sview(order), opt_sview(after), opt_sview(before)),
        ),
{
    let ghost items = spec_raw_pagination_items(
        limit,
        opt_sview(order),
        opt_sview(after),
        opt_sview(before),
    );
    let mut v: Vec<String> = Vec::new();
    if let Some(l) = limit {
        v.push(String::from_str("limit=").concat(i32_to_string(l).as_str()));
    }
    if let Some(o) = order {
        v.push(String::from_str("order=").concat(o));
    }
    if let Some(a) = after {
        v.push(String::from_str("after=").concat(a));
    }
    if let Some(b) = before {
        v.push(String::from_str("before=").concat(b));
    }
    proof {
        assert(Seq::new(v@.len(), |i: int| v@[i]@) =~= items);
    }
    if v.len() == 0 {
        String::new()
    } else {
        let joined = join_amp(v);
        String::from_str("?").concat(joined.as_str())
    }
}

/// The path for listing the runs of a thread, pagination options
/// attached as a raw query in the fixed order `limit`, `order`, `after`,
/// `before`.
pub fn list_runs_path(
    thread_id: &str,
    limit: Option<i32>,
    order: Option<&str>,
    after: Option<&str>,
    before: Option<&str>,
) -> (r: String)
    ensures
        r@ == "/threads/"@ + thread_id@ + "/runs"@ + spec_raw_query_suffix(
            spec_raw_pagination_items(limit, opt_sview(order), opt_sview(after), opt_sview(before)),
        ),
{
    let suffix = raw_pagination_suffix(limit, order, after, before);
    String::from_str("/threads/").concat(thread_id).concat("/runs").concat(suffix.as_str())
}

/// The path for listing the steps of a run, pagination options attached
/// as a raw query in the fixed order `limit`, `order`, `after`,
/// `before`.
pub fn list_run_steps_path(
    thread_id: &str,
    run_id: &str,
    limit: Option<i32>,
    order: Option<&str>,
    after: Option<&str>,
    before: Option<&str>,
) -> (r: String)
    ensures
        r@ == "/threads/"@ + thread_id@ + "/runs/"@ + run_id@ + "/steps"@ + spec_raw_query_suffix(
            spec_raw_pagination_items(limit, opt_sview(order), opt_sview(after), opt_sview(before)),
        ),
{
    let suffix = raw_pagination_suffix(limit, order, after, before);
    String::from_str("/threads/").concat(thread_id).concat("/runs/").concat(run_id).concat(
        "/steps",
    ).concat(suffix.as_str())
}

/// The path for submitting tool outputs to a run.
pub fn submit_tool_outputs_path(thread_id: &str, run_id: &str) -> (r: String)
    ensures
        r@ == "/threads/"@ + thread_id@ + "/runs/"@ + run_id@ + "/submit_tool_outputs"@,
{
    String::from_str("/threads/").concat(thread_id).concat("/runs/").concat(run_id).concat(
        "/submit_tool_outputs",
    )
}

/// The path for cancelling a run.
pub fn cancel_run_path(thread_id: &str, run_id: &str) -> (r: String)
    ensures
        r@ == "/threads/"@ + thread_id@ + "/runs/"@ + run_id@ + "/cancel"@,
{
    String::from_str("/threads/").concat(thread_id).concat("/runs/").concat(run_id).concat(
        "/cancel",
    )
}

/// The path for retrieving one run step.
pub fn run_step_path(thread_id: &str, run_id: &str, step_id: &str) -> (r: String)
    ensures
        r@ == "/threads/"@ + thread_id@ + "/runs/"@ + run_id@ + "/steps/"@ + step_id@,
{
    String::from_str("/threads/").concat(thread_id).concat("/runs/").concat(run_id).concat(
        "/steps/",
    ).concat(step_id)
}

} // verus!
