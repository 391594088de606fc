//! Assistants-endpoint data structures.

use vstd::prelude::*;

verus! {

/// Response from deleting an assistant.
#[derive(Debug, Clone)]
pub struct DeleteAssistantResponse {
    /// The ID of the deleted assistant.
    pub id: String,
    /// The object type.
    pub object: String,
    /// Whether the assistant was deleted.
    pub deleted: bool,
}

/// An assistant file object.
#[derive(Debug, Clone)]
pub struct AssistantFile {
    /// The identifier of the assistant file.
    pub id: String,
    /// The object type, always `assistant.file`.
    pub object: String,
    /// The Unix timestamp (in seconds) for when the assistant file was
    /// created.
    pub created_at: i64,
    /// The assistant ID that the file is attached to.
    pub assistant_id: String,
}

/// Request to create an assistant file.
#[derive(Debug, Clone)]
pub struct CreateAssistantFileRequest {
    /// A file ID that the assistant should use.
    pub file_id: String,
}

/// Response containing a list of assistant files.
#[derive(Debug, Clone)]
pub struct ListAssistantFilesResponse {
    /// The object type.
    pub object: String,
    /// The assistant file objects.
    pub data: Vec<AssistantFile>,
    /// The first ID of the page.
    pub first_id: Option<String>,
    /// The last ID of the page.
    pub last_id: Option<String>,
    /// Whether more items follow the page.
    pub has_more: bool,
}

/// Response from deleting an assistant file.
#[derive(Debug, Clone)]
pub struct DeleteAssistantFileResponse {
    /// The ID of the deleted file.
    pub id: String,
    /// The object type.
    pub object: String,
    /// Whether the file was deleted.
    pub deleted: bool,
}

} // verus!
