//! Completions-endpoint data structures.

use vstd::prelude::*;

verus! {

/// A completion prompt: a single string or an array of strings.
#[derive(Debug, Clone)]
pub enum CompletionPrompt {
    /// Single string prompt.
    String(String),
    /// Array of string prompts.
    Array(Vec<String>),
}

/// Stop sequences: a single string or up to four strings.
#[derive(Debug, Clone)]
pub enum CompletionStop {
    /// Single stop sequence.
    String(String),
    /// Multiple stop sequences.
    Array(Vec<String>),
}

/// Token usage statistics.
#[derive(Debug, Clone)]
pub struct CompletionUsage {
    /// Number of tokens in the prompt.
    pub prompt_tokens: u32,
    /// Number of tokens in the completion.
    pub completion_tokens: u32,
    /// Total tokens used.
    pub total_tokens: u32,
}

} // verus!
