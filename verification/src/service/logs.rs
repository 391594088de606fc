//! Request construction for the logs endpoint: export paths and the
//! listing query.

use vstd::prelude::*;

use crate::auth::header_view;
use crate::model::logs::ListLogExportsParams;

verus! {

/// The path of one log export.
pub fn log_export_path(export_id: &str) -> (r: String)
    ensures
        r@ == "/logs/exports/"@ + export_id@,
{
    String::from_str("/logs/exports/").concat(export_id)
}

/// The path that starts one log export.
pub fn log_export_start_path(export_id: &str) -> (r: String)
    ensures
        r@ == "/logs/exports/"@ + export_id@ + "/start"@,
{
    String::from_str("/logs/exports/").concat(export_id).concat("/start")
}

/// The path that cancels one log export.
pub fn log_export_cancel_path(export_id: &str) -> (r: String)
    ensures
        r@ == "/logs/exports/"@ + export_id@ + "/cancel"@,
{
    String::from_str("/logs/exports/").concat(export_id).concat("/cancel")
}

/// The path that downloads one log export.
pub fn log_export_download_path(export_id: &str) -> (r: String)
    ensures
        r@ == "/logs/exports/"@ + export_id@ + "/download"@,
{
    String::from_str("/logs/exports/").concat(export_id).concat("/download")
}

/// The query pairs of a log-export listing: the workspace ID exactly when
/// set.
pub open spec fn spec_list_log_exports_query(p: ListLogExportsParams) -> Seq<
    (Seq<char>, Seq<char>),
> {
    match p.workspace_id {
        Some(w) => seq![("workspace_id"@, w@)],
        None => Seq::<(Seq<char>, Seq<char>)>::empty(),
    }
}

/// Converts log-export listing parameters into query pairs.
pub fn list_log_exports_query(params: &ListLogExportsParams) -> (r: Vec<(String, String)>)
    ensures
        header_view(r@) == spec_list_log_exports_query(*params),
{
    let mut r: Vec<(String, String)> = Vec::new();
    if let Some(w) = &params.workspace_id {
        r.push((String::from_str("workspace_id"), w.clone()));
    }
    proof {
        assert(header_view(r@) =~= spec_list_log_exports_query(*params));
    }
    r
}

} // verus!
