//! Audio-endpoint data structures: transcription, translation and speech
//! synthesis.

use vstd::prelude::*;

verus! {

/// Response format for audio transcription and translation.
#[derive(Debug, Clone, Copy, PartialEq, Eq)]
pub enum TranscriptionResponseFormat {
    /// JSON with just the transcribed text.
    Json,
    /// Plain text.
    Text,
    /// SubRip subtitle format.
    Srt,
    /// Verbose JSON with additional metadata.
    VerboseJson,
    /// WebVTT subtitle format.
    Vtt,
}

/// The wire name of a transcription response format.
pub open spec fn spec_transcription_format_value(f: TranscriptionResponseFormat) -> Seq<char> {
    match f {
        TranscriptionResponseFormat::Json => "json"@,
        TranscriptionResponseFormat::Text => "text"@,
        TranscriptionResponseFormat::Srt => "srt"@,
        TranscriptionResponseFormat::VerboseJson => "verbose_json"@,
        TranscriptionResponseFormat::Vtt => "vtt"@,
    }
}

impl TranscriptionResponseFormat {
    /// The value this format takes in a form field.
    pub fn form_value(&self) -> (r: &'static str)
        ensures
            r@ == spec_transcription_format_value(*self),
    {
        match self {
            TranscriptionResponseFormat::Json => "json",
            TranscriptionResponseFormat::Text => "text",
            TranscriptionResponseFormat::Srt => "srt",
            TranscriptionResponseFormat::VerboseJson => "verbose_json",
            TranscriptionResponseFormat::Vtt => "vtt",
        }
    }
}

impl Default for TranscriptionResponseFormat {
    /// The JSON format.
    fn default() -> (r: Self)
        ensures
            r is Json,
    {
        TranscriptionResponseFormat::Json
    }
}

/// Timestamp granularity for verbose transcription.
#[derive(Debug, Clone, Copy, PartialEq, Eq)]
pub enum TimestampGranularity {
    /// Word-level timestamps (incurs additional latency).
    Word,
    /// Segment-level timestamps (no additional latency).
    Segment,
}

/// The wire name of a timestamp granularity.
pub open spec fn spec_granularity_value(g: TimestampGranularity) -> Seq<char> {
    match g {
        TimestampGranularity::Word => "word"@,
        TimestampGranularity::Segment => "segment"@,
    }
}

impl TimestampGranularity {
    /// The value this granularity takes in a form field.
    pub fn form_value(&self) -> (r: &'static str)
        ensures
            r@ == spec_granularity_value(*self),
    {
        match self {
            TimestampGranularity::Word => "word",
            TimestampGranularity::Segment => "segment",
        }
    }
}

/// Simple JSON transcription response, holding only the transcribed
/// text.
#[derive(Debug, Clone)]
pub struct CreateTranscriptionResponseJson {
    /// The transcribed text.
    pub text: String,
}

/// Voice options for text-to-speech generation.
#[derive(Debug, Clone, Copy, PartialEq, Eq)]
pub enum Voice {
    /// Alloy voice.
    Alloy,
    /// Echo voice.
    Echo,
    /// Fable voice.
    Fable,
    /// Onyx voice.
    Onyx,
    /// Nova voice.
    Nova,
    /// Shimmer voice.
    Shimmer,
}

/// Audio format for speech output.
#[derive(Debug, Clone, Copy, PartialEq, Eq)]
pub enum SpeechResponseFormat {
    /// MP3 (the default).
    Mp3,
    /// Opus.
    Opus,
    /// AAC.
    Aac,
    /// FLAC.
    Flac,
    /// WAV.
    Wav,
    /// PCM.
    Pcm,
}

impl Default for SpeechResponseFormat {
    /// The MP3 format.
    fn default() -> (r: Self)
        ensures
            r is Mp3,
    {
        SpeechResponseFormat::Mp3
    }
}

/// Simple JSON translation response, holding the translated text, always
/// in English.
#[derive(Debug, Clone)]
pub struct CreateTranslationResponseJson {
    /// The translated text.
    pub text: String,
}

} // verus!
