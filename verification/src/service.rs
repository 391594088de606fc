//! Request construction for the resource endpoints.
//!
//! Each function here turns one endpoint's typed inputs into what the
//! pipeline consumes — a path, query pairs, or multipart form fields —
//! with the exact content and order pinned by its contract.  Dispatching
//! and decoding stay with the embedding application.

pub mod assistants;
pub mod audio;
pub mod batches;
pub mod feedback;
pub mod files;
pub mod fine_tuning;
pub mod images;
pub mod logs;
pub mod messages;
pub mod models;
pub mod prompts;
pub mod responses;
pub mod runs;
pub mod threads;
