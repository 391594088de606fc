//! Moderations-endpoint data structures.

use vstd::prelude::*;

verus! {

/// Request to create a moderation.
#[derive(Debug, Clone)]
pub struct CreateModerationRequest {
    /// The input text to classify.
    pub input: ModerationInput,
    /// The content moderation model to use.
    pub model: Option<String>,
}

impl Default for CreateModerationRequest {
    /// An empty input with the latest moderation model.
    fn default() -> (r: Self)
        ensures
            (r.input matches ModerationInput::String(s) && s@.len() == 0),
            (r.model matches Some(m) && m@ == "text-moderation-latest"@),
    {
        CreateModerationRequest {
            input: ModerationInput::String(String::new()),
            model: Some(String::from_str("text-moderation-latest")),
        }
    }
}

/// Input for moderation: a single string or an array of strings.
#[derive(Debug, Clone)]
pub enum ModerationInput {
    /// A single string.
    String(String),
    /// An array of strings.
    Array(Vec<String>),
}

impl From<String> for ModerationInput {
    /// Wraps a single string.
    fn from(s: String) -> (r: Self) {
        ModerationInput::String(s)
    }
}

impl vstd::std_specs::convert::FromSpecImpl<String> for ModerationInput {
    open spec fn obeys_from_spec() -> bool {
        true
    }

    open spec fn from_spec(s: String) -> Self {
        ModerationInput::String(s)
    }
}

impl From<Vec<String>> for ModerationInput {
    /// Wraps an array of strings.
    fn from(v: Vec<String>) -> (r: Self) {
        ModerationInput::Array(v)
    }
}

impl vstd::std_specs::convert::FromSpecImpl<Vec<String>> for ModerationInput {
    open spec fn obeys_from_spec() -> bool {
        true
    }

    open spec fn from_spec(v: Vec<String>) -> Self {
        ModerationInput::Array(v)
    }
}

/// The categories checked by the moderation endpoint, each flagged or
/// not.
#[derive(Debug, Clone)]
pub struct ModerationCategories {
    /// Hate content.
    pub hate: bool,
    /// Hateful content that also includes violence or serious harm.
    pub hate_threatening: bool,
    /// Harassing content.
    pub harassment: bool,
    /// Harassment that also includes violence or serious harm.
    pub harassment_threatening: bool,
    /// Content that promotes or depicts acts of self-harm.
    pub self_harm: bool,
    /// Content where the speaker expresses intent of self-harm.
    pub self_harm_intent: bool,
    /// Content that encourages acts of self-harm.
    pub self_harm_instructions: bool,
    /// Sexual content.
    pub sexual: bool,
    /// Sexual content involving minors.
    pub sexual_minors: bool,
    /// Content that depicts death, violence, or physical injury.
    pub violence: bool,
    /// Violent content in graphic detail.
    pub violence_graphic: bool,
}

} // verus!
