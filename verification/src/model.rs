//! Data models of the REST resources.
//!
//! Request and response types for the endpoints the gateway exposes.
//! They carry plain values; the embedding application encodes and
//! decodes them at the wire.

pub mod assistants;
pub mod audio;
pub mod batches;
pub mod common;
pub mod completions;
pub mod feedback;
pub mod files;
pub mod fine_tuning;
pub mod images;
pub mod logs;
pub mod messages;
pub mod models;
pub mod moderations;
pub mod responses;
pub mod runs;
pub mod threads;

pub use assistants::{
    AssistantFile, CreateAssistantFileRequest, DeleteAssistantFileResponse,
    DeleteAssistantResponse, ListAssistantFilesResponse,
};
pub use audio::{
    CreateTranscriptionResponseJson, CreateTranslationResponseJson, SpeechResponseFormat,
    TimestampGranularity, TranscriptionResponseFormat, Voice,
};
pub use batches::{
    Batch, BatchError, BatchErrors, BatchRequestCounts, CreateBatchRequest, ListBatchesResponse,
};
pub use common::PaginationParams;
pub use completions::{CompletionPrompt, CompletionStop, CompletionUsage};
pub use feedback::FeedbackResponse;
pub use files::{DeleteFileResponse, FileObject, ListFilesResponse, UploadFileRequest};
pub use fine_tuning::{
    FineTuningError, FineTuningJobEvent, Integration, ListFineTuningJobEventsResponse,
    WandbIntegration,
};
pub use images::{
    CreateImageEditRequest, CreateImageRequest, CreateImageVariationRequest, Image, ImageQuality,
    ImageResponseFormat, ImageSize, ImageStyle, ImagesResponse,
};
pub use logs::{
    CreateLogExportResponse, DownloadLogExportResponse, ExportStatus, ExportTaskResponse,
    InsertLogResponse, ListLogExportsParams, LogExportField, UpdateLogExportResponse,
};
pub use messages::{
    Annotation, CreateMessageRequest, FileCitation, FilePathAnnotation, ImageFileContent,
    ListMessageFilesResponse, ListMessagesResponse, Message, MessageContent, MessageFile,
    ModifyMessageRequest, TextContent,
};
pub use models::{ListModelsParams, ListModelsResponse, Model, ModelSortField, SortOrder};
pub use moderations::{CreateModerationRequest, ModerationCategories, ModerationInput};
pub use responses::ListInputItemsParams;
pub use runs::{
    FunctionCall, FunctionToolChoice, ListRunStepsResponse, MessageCreation, ModifyRunRequest,
    RequiredAction, RunError, RunStep, RunUsage, StepDetails, SubmitToolOutputs,
    SubmitToolOutputsRequest, ToolCall, ToolChoice, ToolOutput, TruncationStrategy,
};
pub use threads::{
    CreateThreadRequest, DeleteThreadResponse, ModifyThreadRequest, Thread, ThreadMessage,
};
