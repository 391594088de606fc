//! Batches-endpoint data structures.

use std::collections::HashMap;
use vstd::prelude::*;

verus! {

/// Request to create a batch.
#[derive(Debug, Clone)]
pub struct CreateBatchRequest {
    /// The ID of an uploaded file that contains requests for the new
    /// batch.
    pub input_file_id: String,
    /// The endpoint to be used for all requests in the batch.
    pub endpoint: String,
    /// The time frame within which the batch should be processed;
    /// currently only `24h` is supported.
    pub completion_window: String,
    /// Optional custom metadata for the batch.
    pub metadata: Option<HashMap<String, String>>,
}

impl Default for CreateBatchRequest {
    /// An empty request with the `24h` completion window.
    fn default() -> (r: Self)
        ensures
            r.input_file_id@.len() == 0,
            r.endpoint@.len() == 0,
            r.completion_window@ == "24h"@,
            r.metadata is None,
    {
        CreateBatchRequest {
            input_file_id: String::new(),
            endpoint: String::new(),
            completion_window: String::from_str("24h"),
            metadata: None,
        }
    }
}

/// The batch object.
#[derive(Debug, Clone)]
pub struct Batch {
    /// The batch identifier.
    pub id: String,
    /// The object type, always `batch`.
    pub object: String,
    /// The endpoint used by the batch.
    pub endpoint: String,
    /// Error information for the batch.
    pub errors: Option<BatchErrors>,
    /// The ID of the input file for the batch.
    pub input_file_id: String,
    /// The time frame within which the batch should be processed.
    pub completion_window: String,
    /// The current status of the batch.
    pub status: String,
    /// The ID of the file with the outputs of successful requests.
    pub output_file_id: Option<String>,
    /// The ID of the file with the outputs of failed requests.
    pub error_file_id: Option<String>,
    /// When the batch was created (Unix seconds).
    pub created_at: i64,
    /// When the batch started processing (Unix seconds).
    pub in_progress_at: Option<i64>,
    /// When the batch will expire (Unix seconds).
    pub expires_at: Option<i64>,
    /// When the batch started finalizing (Unix seconds).
    pub finalizing_at: Option<i64>,
    /// When the batch was completed (Unix seconds).
    pub completed_at: Option<i64>,
    /// When the batch failed (Unix seconds).
    pub failed_at: Option<i64>,
    /// When the batch expired (Unix seconds).
    pub expired_at: Option<i64>,
    /// When the batch started cancelling (Unix seconds).
    pub cancelling_at: Option<i64>,
    /// When the batch was cancelled (Unix seconds).
    pub cancelled_at: Option<i64>,
    /// The request counts for different statuses within the batch.
    pub request_counts: Option<BatchRequestCounts>,
    /// Key-value pairs attached to the object.
    pub metadata: Option<HashMap<String, String>>,
}

/// Errors that occurred during batch processing.
#[derive(Debug, Clone)]
pub struct BatchErrors {
    /// The object type.
    pub object: String,
    /// The errors.
    pub data: Vec<BatchError>,
}

/// A single error in a batch.
#[derive(Debug, Clone)]
pub struct BatchError {
    /// An error code identifying the error type.
    pub code: String,
    /// A human-readable message with more details.
    pub message: String,
    /// The name of the parameter that caused the error, if applicable.
    pub param: Option<String>,
    /// The line number of the input file where the error occurred, if
    /// applicable.
    pub line: Option<i64>,
}

/// Request counts for different statuses within a batch.
#[derive(Debug, Clone)]
pub struct BatchRequestCounts {
    /// Total number of requests in the batch.
    pub total: i64,
    /// Number of requests completed successfully.
    pub completed: i64,
    /// Number of requests that failed.
    pub failed: i64,
}

/// Response containing a list of batches.
#[derive(Debug, Clone)]
pub struct ListBatchesResponse {
    /// The object type.
    pub object: String,
    /// The batch objects.
    pub data: Vec<Batch>,
    /// The first ID of the page.
    pub first_id: Option<String>,
    /// The last ID of the page.
    pub last_id: Option<String>,
    /// Whether more items follow the page.
    pub has_more: bool,
}

} // verus!
