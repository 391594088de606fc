//! Files-endpoint data structures: upload and management of files.

use vstd::prelude::*;

verus! {

/// Request body for uploading a file.
#[derive(Debug, Clone)]
pub struct UploadFileRequest {
    /// The file contents.
    pub file: Vec<u8>,
    /// The file name.
    pub filename: String,
    /// The intended purpose of the uploaded file: `assistants`, `vision`,
    /// `batch`, or `fine-tune`.
    pub purpose: String,
}

/// Response from uploading a file.
#[derive(Debug, Clone)]
pub struct FileObject {
    /// The file identifier.
    pub id: String,
    /// The object type, always `file`.
    pub object: String,
    /// The size of the file in bytes.
    pub bytes: u64,
    /// The Unix timestamp (in seconds) for when the file was created.
    pub created_at: i64,
    /// The name of the file.
    pub filename: String,
    /// The intended purpose of the file.
    pub purpose: String,
    /// Deprecated: the current status of the file.
    pub status: Option<String>,
    /// Deprecated: details on why a fine-tuning training file failed
    /// validation.
    pub status_details: Option<String>,
}

/// Response from listing files.
#[derive(Debug, Clone)]
pub struct ListFilesResponse {
    /// The file objects.
    pub data: Vec<FileObject>,
    /// The object type, always `list`.
    pub object: String,
}

/// Response from deleting a file.
#[derive(Debug, Clone)]
pub struct DeleteFileResponse {
    /// The ID of the deleted file.
    pub id: String,
    /// The object type, always `file`.
    pub object: String,
    /// Whether the file was successfully deleted.
    pub deleted: bool,
}

} // verus!
