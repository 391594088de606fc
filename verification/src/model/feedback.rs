//! Feedback-endpoint data structures.

use vstd::prelude::*;

verus! {

/// Response from creating or updating feedback.
#[derive(Debug, Clone)]
pub struct FeedbackResponse {
    /// Status of the operation.
    pub status: String,
    /// Confirmation message.
    pub message: String,
    /// IDs of the feedback entries created or updated.
    pub feedback_ids: Vec<String>,
}

} // verus!
