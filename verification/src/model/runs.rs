//! Runs-endpoint data structures (runs and run steps within threads).

use std::collections::HashMap;
use vstd::prelude::*;

verus! {

/// Request to modify a run.
#[derive(Debug, Clone)]
pub struct ModifyRunRequest {
    /// Key-value pairs attached to the object.
    pub metadata: Option<HashMap<String, String>>,
}

impl Default for ModifyRunRequest {
    /// A request with nothing set.
    fn default() -> (r: Self)
        ensures
            r.metadata is None,
    {
        ModifyRunRequest { metadata: None }
    }
}

/// Request to submit tool outputs to a run.
#[derive(Debug, Clone)]
pub struct SubmitToolOutputsRequest {
    /// The tools for which outputs are being submitted.
    pub tool_outputs: Vec<ToolOutput>,
}

/// Output from a tool.
#[derive(Debug, Clone)]
pub struct ToolOutput {
    /// The ID of the tool call.
    pub tool_call_id: String,
    /// The output of the tool call.
    pub output: String,
}

/// Details on the action required to continue a run.
#[derive(Debug, Clone)]
pub struct RequiredAction {
    /// The type of action required.
    pub action_type: String,
    /// The tool outputs needed for the run to continue.
    pub submit_tool_outputs: SubmitToolOutputs,
}

/// The tool outputs needed for a run to continue.
#[derive(Debug, Clone)]
pub struct SubmitToolOutputs {
    /// The relevant tool calls.
    pub tool_calls: Vec<ToolCall>,
}

/// A tool call that the assistant made.
#[derive(Debug, Clone)]
pub struct ToolCall {
    /// The ID of the tool call.
    pub id: String,
    /// The type of tool call.
    pub tool_type: String,
    /// The function called.
    pub function: FunctionCall,
}

/// A function call.
#[derive(Debug, Clone)]
pub struct FunctionCall {
    /// The name of the function.
    pub name: String,
    /// The arguments the function was called with.
    pub arguments: String,
}

/// Error information for a failed run.
#[derive(Debug, Clone)]
pub struct RunError {
    /// One of `server_error`, `rate_limit_exceeded`, or
    /// `invalid_prompt`.
    pub code: String,
    /// A human-readable description of the error.
    pub message: String,
}

/// Usage statistics for a run.
#[derive(Debug, Clone)]
pub struct RunUsage {
    /// Number of completion tokens used.
    pub completion_tokens: i32,
    /// Number of prompt tokens used.
    pub prompt_tokens: i32,
    /// Total number of tokens used.
    pub total_tokens: i32,
}

/// How a thread is truncated prior to a run.
#[derive(Debug, Clone)]
pub enum TruncationStrategy {
    /// Automatic truncation.
    Auto,
    /// Keep only the last messages.
    LastMessages {
        /// How many trailing messages to keep.
        last_messages: i32,
    },
}

/// Which tool is called by the model.
#[derive(Debug, Clone)]
pub enum ToolChoice {
    /// The model picks.
    Auto(String),
    /// No tool.
    NoTool(String),
    /// A tool is required.
    Required(String),
    /// A specific function.
    Function {
        /// The function to call.
        function: FunctionToolChoice,
    },
}

/// A specific tool the model should use.
#[derive(Debug, Clone)]
pub struct FunctionToolChoice {
    /// The name of the function to call.
    pub name: String,
}

/// A run step object.
#[derive(Debug, Clone)]
pub struct RunStep {
    /// The identifier of the run step.
    pub id: String,
    /// The object type, always `thread.run.step`.
    pub object: String,
    /// When the run step was created (Unix seconds).
    pub created_at: i64,
    /// The ID of the assistant associated with the run step.
    pub assistant_id: String,
    /// The ID of the thread that was run.
    pub thread_id: String,
    /// The ID of the run this step is part of.
    pub run_id: String,
    /// The type of run step.
    pub step_type: String,
    /// The status of the run step.
    pub status: String,
    /// The details of the run step.
    pub step_details: StepDetails,
    /// The last error associated with this run step.
    pub last_error: Option<RunError>,
    /// When the run step expired (Unix seconds).
    pub expired_at: Option<i64>,
    /// When the run step was cancelled (Unix seconds).
    pub cancelled_at: Option<i64>,
    /// When the run step failed (Unix seconds).
    pub failed_at: Option<i64>,
    /// When the run step completed (Unix seconds).
    pub completed_at: Option<i64>,
    /// Key-value pairs attached to the object.
    pub metadata: HashMap<String, String>,
    /// Usage statistics related to the run step.
    pub usage: Option<RunUsage>,
}

/// Details of a run step.
#[derive(Debug, Clone)]
pub enum StepDetails {
    /// A message was created.
    MessageCreation {
        /// The created message.
        message_creation: MessageCreation,
    },
    /// Tools were called.
    ToolCalls {
        /// The tool calls.
        tool_calls: Vec<ToolCall>,
    },
}

/// Details of a message-creation step.
#[derive(Debug, Clone)]
pub struct MessageCreation {
    /// The ID of the message created by this run step.
    pub message_id: String,
}

/// Response containing a list of run steps.
#[derive(Debug, Clone)]
pub struct ListRunStepsResponse {
    /// The object type.
    pub object: String,
    /// The run step objects.
    pub data: Vec<RunStep>,
    /// The first ID of the page.
    pub first_id: Option<String>,
    /// The last ID of the page.
    pub last_id: Option<String>,
    /// Whether more items follow the page.
    pub has_more: bool,
}

} // verus!
