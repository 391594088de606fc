//! Fine-tuning-endpoint data structures.

use vstd::prelude::*;

verus! {

/// Integration configuration for a fine-tuning job.
#[derive(Debug, Clone)]
pub struct Integration {
    /// The type of integration to enable.
    pub integration_type: String,
    /// The settings for the Weights & Biases integration.
    pub wandb: WandbIntegration,
}

/// Weights & Biases integration configuration.
#[derive(Debug, Clone)]
pub struct WandbIntegration {
    /// The name of the project that the new run will be created under.
    pub project: String,
    /// A display name to set for the run.
    pub name: Option<String>,
    /// The entity to use for the run.
    pub entity: Option<String>,
    /// Tags to be attached to the newly created run.
    pub tags: Option<Vec<String>>,
}

/// Error information for a failed fine-tuning job.
#[derive(Debug, Clone)]
pub struct FineTuningError {
    /// A machine-readable error code.
    pub code: String,
    /// A human-readable error message.
    pub message: String,
    /// The parameter that was invalid.
    pub param: Option<String>,
}

/// A fine-tuning job event object.
#[derive(Debug, Clone)]
pub struct FineTuningJobEvent {
    /// The event identifier.
    pub id: String,
    /// When the event was created (Unix seconds).
    pub created_at: i64,
    /// The event level.
    pub level: String,
    /// The event message.
    pub message: String,
    /// The object type.
    pub object: String,
}

/// Response containing a list of fine-tuning job events.
#[derive(Debug, Clone)]
pub struct ListFineTuningJobEventsResponse {
    /// The object type.
    pub object: String,
    /// The event objects.
    pub data: Vec<FineTuningJobEvent>,
}

} // verus!
