//! Logs-endpoint data structures: exports and custom log insertion.

use vstd::prelude::*;

verus! {

/// Status of a log export.
#[derive(Debug, Clone, Copy, PartialEq, Eq)]
pub enum ExportStatus {
    /// The export is a draft.
    Draft,
    /// The export is running.
    InProgress,
    /// The export finished successfully.
    Success,
    /// The export failed.
    Failed,
    /// The export was stopped.
    Stopped,
}

/// Requested data fields for log exports.
#[derive(Debug, Clone, Copy, PartialEq, Eq)]
pub enum LogExportField {
    /// The log entry ID.
    Id,
    /// The trace ID.
    TraceId,
    /// The creation time.
    CreatedAt,
    /// The request data.
    Request,
    /// The response data.
    Response,
    /// Whether the call succeeded.
    IsSuccess,
    /// The AI organisation.
    AiOrg,
    /// The AI model.
    AiModel,
    /// Units counted for the request.
    ReqUnits,
    /// Units counted for the response.
    ResUnits,
    /// Total units.
    TotalUnits,
    /// The request URL.
    RequestUrl,
    /// The cost.
    Cost,
    /// The cost currency.
    CostCurrency,
    /// The response time.
    ResponseTime,
    /// The response status code.
    ResponseStatusCode,
    /// The mode.
    Mode,
    /// The config.
    Config,
    /// The prompt slug.
    PromptSlug,
    /// The metadata.
    Metadata,
}

/// Response from creating a log export.
#[derive(Debug, Clone)]
pub struct CreateLogExportResponse {
    /// Export ID.
    pub id: String,
    /// Total number of items in the export.
    pub total: i32,
    /// Object type, always `export`.
    pub object: String,
}

/// Response from export task operations (start and cancel).
#[derive(Debug, Clone)]
pub struct ExportTaskResponse {
    /// Status message.
    pub message: String,
    /// Object type, always `export`.
    pub object: String,
}

/// Response from a download request.
#[derive(Debug, Clone)]
pub struct DownloadLogExportResponse {
    /// Pre-signed URL for downloading the export.
    pub signed_url: String,
}

/// Response from inserting log entries.
#[derive(Debug, Clone)]
pub struct InsertLogResponse {
    /// Status message.
    pub status: String,
    /// IDs of the inserted log entries.
    pub log_ids: Option<Vec<String>>,
}

/// Response from updating a log export.
#[derive(Debug, Clone)]
pub struct UpdateLogExportResponse {
    /// Export ID.
    pub id: String,
    /// Total number of items.
    pub total: i32,
    /// Object type, always `export`.
    pub object: String,
}

/// Parameters for listing log exports.
#[derive(Debug, Clone)]
pub struct ListLogExportsParams {
    /// Workspace ID to filter by.
    pub workspace_id: Option<String>,
}

impl Default for ListLogExportsParams {
    /// Parameters with no filter set.
    fn default() -> (r: Self)
        ensures
            r.workspace_id is None,
    {
        ListLogExportsParams { workspace_id: None }
    }
}

} // verus!
