//! Threads-endpoint data structures.

use std::collections::HashMap;
use vstd::prelude::*;

verus! {

/// Request to create a thread.
#[derive(Debug, Clone)]
pub struct CreateThreadRequest {
    /// Messages to start the thread with.
    pub messages: Option<Vec<ThreadMessage>>,
    /// Key-value pairs attached to the object.
    pub metadata: Option<HashMap<String, String>>,
}

impl Default for CreateThreadRequest {
    /// A request with nothing set.
    fn default() -> (r: Self)
        ensures
            r.messages is None,
            r.metadata is None,
    {
        CreateThreadRequest { messages: None, metadata: None }
    }
}

/// Request to modify a thread.
#[derive(Debug, Clone)]
pub struct ModifyThreadRequest {
    /// Key-value pairs attached to the object.
    pub metadata: Option<HashMap<String, String>>,
}

impl Default for ModifyThreadRequest {
    /// A request with nothing set.
    fn default() -> (r: Self)
        ensures
            r.metadata is None,
    {
        ModifyThreadRequest { metadata: None }
    }
}

/// A thread object.
#[derive(Debug, Clone)]
pub struct Thread {
    /// The identifier of the thread.
    pub id: String,
    /// The object type, always `thread`.
    pub object: String,
    /// When the thread was created (Unix seconds).
    pub created_at: i64,
    /// Key-value pairs attached to the object.
    pub metadata: HashMap<String, String>,
}

/// Response from deleting a thread.
#[derive(Debug, Clone)]
pub struct DeleteThreadResponse {
    /// The ID of the deleted thread.
    pub id: String,
    /// The object type.
    pub object: String,
    /// Whether the thread was deleted.
    pub deleted: bool,
}

/// A message used to start a thread.
#[derive(Debug, Clone)]
pub struct ThreadMessage {
    /// The role of the entity that is creating the message.
    pub role: String,
    /// The content of the message.
    pub content: String,
    /// File IDs that the message should use.
    pub file_ids: Option<Vec<String>>,
    /// Key-value pairs attached to the object.
    pub metadata: Option<HashMap<String, String>>,
}

} // verus!
