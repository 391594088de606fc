//! Messages-endpoint data structures (messages within threads).

use std::collections::HashMap;
use vstd::prelude::*;

verus! {

/// Request to create a message.
#[derive(Debug, Clone)]
pub struct CreateMessageRequest {
    /// The role of the entity that is creating the message.
    pub role: String,
    /// The content of the message.
    pub content: String,
    /// File IDs that the message should use.
    pub file_ids: Option<Vec<String>>,
    /// Key-value pairs attached to the object.
    pub metadata: Option<HashMap<String, String>>,
}

impl Default for CreateMessageRequest {
    /// An empty user message.
    fn default() -> (r: Self)
        ensures
            r.role@ == "user"@,
            r.content@.len() == 0,
            r.file_ids is None,
            r.metadata is None,
    {
        CreateMessageRequest {
            role: String::from_str("user"),
            content: String::new(),
            file_ids: None,
            metadata: None,
        }
    }
}

/// Request to modify a message.
#[derive(Debug, Clone)]
pub struct ModifyMessageRequest {
    /// Key-value pairs attached to the object.
    pub metadata: Option<HashMap<String, String>>,
}

impl Default for ModifyMessageRequest {
    /// A request with nothing set.
    fn default() -> (r: Self)
        ensures
            r.metadata is None,
    {
        ModifyMessageRequest { metadata: None }
    }
}

/// A message object.
#[derive(Debug, Clone)]
pub struct Message {
    /// The identifier of the message.
    pub id: String,
    /// The object type, always `thread.message`.
    pub object: String,
    /// When the message was created (Unix seconds).
    pub created_at: i64,
    /// The thread ID that this message belongs to.
    pub thread_id: String,
    /// The role of the entity that created the message.
    pub role: String,
    /// The content of the message.
    pub content: Vec<MessageContent>,
    /// The ID of the assistant that authored this message, if any.
    pub assistant_id: Option<String>,
    /// The ID of the run associated with authoring this message, if any.
    pub run_id: Option<String>,
    /// File IDs that the assistant should use.
    pub file_ids: Vec<String>,
    /// Key-value pairs attached to the object.
    pub metadata: HashMap<String, String>,
}

/// Content of a message.
#[derive(Debug, Clone)]
pub enum MessageContent {
    /// Text content.
    Text {
        /// The text.
        text: TextContent,
    },
    /// An image file.
    ImageFile {
        /// The image file.
        image_file: ImageFileContent,
    },
}

/// Text content in a message.
#[derive(Debug, Clone)]
pub struct TextContent {
    /// The data that makes up the text.
    pub value: String,
    /// Annotations for the text.
    pub annotations: Vec<Annotation>,
}

/// Image file content in a message.
#[derive(Debug, Clone)]
pub struct ImageFileContent {
    /// The file ID of the image.
    pub file_id: String,
}

/// An annotation in text content.
#[derive(Debug, Clone)]
pub enum Annotation {
    /// A citation of a file.
    FileCitation {
        /// The annotated text.
        text: String,
        /// The citation.
        file_citation: FileCitation,
        /// Start index of the annotated span.
        start_index: usize,
        /// End index of the annotated span.
        end_index: usize,
    },
    /// A path to a generated file.
    FilePath {
        /// The annotated text.
        text: String,
        /// The file path.
        file_path: FilePathAnnotation,
        /// Start index of the annotated span.
        start_index: usize,
        /// End index of the annotated span.
        end_index: usize,
    },
}

/// A citation pointing to a specific quote from a specific file.
#[derive(Debug, Clone)]
pub struct FileCitation {
    /// The ID of the file the citation is from.
    pub file_id: String,
    /// The specific quote in the file.
    pub quote: String,
}

/// A reference to a file generated by the code-interpreter tool.
#[derive(Debug, Clone)]
pub struct FilePathAnnotation {
    /// The ID of the file that was generated.
    pub file_id: String,
}

/// Response containing a list of messages.
#[derive(Debug, Clone)]
pub struct ListMessagesResponse {
    /// The object type.
    pub object: String,
    /// The message objects.
    pub data: Vec<Message>,
    /// The first ID of the page.
    pub first_id: Option<String>,
    /// The last ID of the page.
    pub last_id: Option<String>,
    /// Whether more items follow the page.
    pub has_more: bool,
}

/// A message file object.
#[derive(Debug, Clone)]
pub struct MessageFile {
    /// The identifier of the message file.
    pub id: String,
    /// The object type, always `thread.message.file`.
    pub object: String,
    /// When the message file was created (Unix seconds).
    pub created_at: i64,
    /// The ID of the message the file is attached to.
    pub message_id: String,
}

/// Response containing a list of message files.
#[derive(Debug, Clone)]
pub struct ListMessageFilesResponse {
    /// The object type.
    pub object: String,
    /// The message file objects.
    pub data: Vec<MessageFile>,
    /// The first ID of the page.
    pub first_id: Option<String>,
    /// The last ID of the page.
    pub last_id: Option<String>,
    /// Whether more items follow the page.
    pub has_more: bool,
}

} // verus!
