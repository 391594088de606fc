//! Request construction for the audio endpoints: the multipart forms of
//! transcription and translation.
//!
//! The sampling temperature reaches these builders already rendered as
//! text, since the library's descriptors carry plain values.

use vstd::prelude::*;

use crate::model::audio::{
    spec_granularity_value, spec_transcription_format_value, TimestampGranularity,
    TranscriptionResponseFormat,
};
use crate::pipeline::{fields_view, FieldView, MultipartField};

verus! {

/// An optional text field: one field when the value is set, none
/// otherwise.
pub open spec fn opt_text_field(name: Seq<char>, v: Option<String>) -> Seq<FieldView> {
    match v {
        Some(s) => seq![FieldView::Text { name, value: s@ }],
        None => Seq::<FieldView>::empty(),
    }
}

/// The form fields of a transcription request, in their fixed order: the
/// audio file, the model, then — each only when set — the language, the
/// prompt, the response format, the temperature, and one field per
/// requested timestamp granularity.
pub open spec fn spec_transcription_fields(
    file_data: Seq<u8>,
    file_name: Seq<char>,
    model: Seq<char>,
    language: Option<String>,
    prompt: Option<String>,
    response_format: Option<TranscriptionResponseFormat>,
    temperature_text: Option<String>,
    timestamp_granularities: Option<Vec<TimestampGranularity>>,
) -> Seq<FieldView> {
    seq![FieldView::File { name: "file"@, file_name, data: file_data }]
        + seq![FieldView::Text { name: "model"@, value: model }] + opt_text_field(
        "language"@,
        language,
    ) + opt_text_field("prompt"@, prompt) + (match response_format {
        Some(f) => seq![
            FieldView::Text { name: "response_format"@, value: spec_transcription_format_value(f) },
        ],
        None => Seq::<FieldView>::empty(),
    }) + opt_text_field("temperature"@, temperature_text) + (match timestamp_granularities {
        Some(gs) => Seq::new(
            gs@.len(),
            |i: int|
                FieldView::Text {
                    name: "timestamp_granularities[]"@,
                    value: spec_granularity_value(gs@[i]),
                },
        ),
        None => Seq::<FieldView>::empty(),
    })
}

/// Builds the multipart form of a transcription request.
#[verifier::rlimit(50)]
pub fn transcription_form_fields(
    file_data: Vec<u8>,
    file_name: &str,
    model: &str,
    language: Option<String>,
    prompt: Option<String>,
    response_format: Option<TranscriptionResponseFormat>,
    temperature_text: Option<String>,
    timestamp_granularities: Option<Vec<TimestampGranularity>>,
) -> (r: Vec<MultipartField>)
    ensures
        fields_view(r@) == spec_transcription_fields(
            file_data@,
            file_name@,
            model@,
            language,
            prompt,
            response_format,
            temperature_text,
            timestamp_granularities,
        ),
{
    let ghost expected = spec_transcription_fields(
        file_data@,
        file_name@,
        model@,
        language,
        prompt,
        response_format,
        temperature_text,
        timestamp_granularities,
    );
    let mut r: Vec<MultipartField> = Vec::new();
    r.push(
        MultipartField::File {
            name: String::from_str("file"),
            file_name: String::from_str(file_name),
            data: file_data,
        },
    );
    r.push(
        MultipartField::Text { name: String::from_str("model"), value: String::from_str(model) },
    );
    if let Some(l) = language {
        r.push(MultipartField::Text { name: String::from_str("language"), value: l });
    }
    if let Some(p) = prompt {
        r.push(MultipartField::Text { name: String::from_str("prompt"), value: p });
    }
    if let Some(f) = response_format {
        r.push(
            MultipartField::Text {
                name: String::from_str("response_format"),
                value: String::from_str(f.form_value()),
            },
        );
    }
    if let Some(t) = temperature_text {
        r.push(MultipartField::Text { name: String::from_str("temperature"), value: t });
    }
    if let Some(gs) = timestamp_granularities {
        let ghost base = r@.len() as int;
        proof {
            assert(fields_view(r@) =~= expected.subrange(0, base));
            assert(forall|j: int| 0 <= j < gs@.len() ==> expected[base + j] == (FieldView::Text {
                name: "timestamp_granularities[]"@,
                value: spec_granularity_value(#[trigger] gs@[j]),
            }));
        }
        let mut i: usize = 0;
        while i < gs.len()
            invariant
                i <= gs@.len(),
                base >= 0,
                r@.len() == base + i,
                expected.len() == base + gs@.len(),
                fields_view(r@) == expected.subrange(0, base + i),
                forall|j: int| 0 <= j < gs@.len() ==> expected[base + j] == (FieldView::Text {
                    name: "timestamp_granularities[]"@,
                    value: spec_granularity_value(#[trigger] gs@[j]),
                }),
            decreases gs@.len() - i,
        {
            let g = gs[i];
            r.push(
                MultipartField::Text {
                    name: String::from_str("timestamp_granularities[]"),
                    value: String::from_str(g.form_value()),
                },
            );
            proof {
                assert(fields_view(r@) =~= expected.subrange(0, base + i + 1));
            }
            i = i + 1;
        }
        proof {
            assert(expected.subrange(0, base + gs@.len()) =~= expected);
        }
        r
    } else {
        proof {
            assert(fields_view(r@) =~= expected);
        }
        r
    }
}

/// The form fields of a translation request, in their fixed order: the
/// audio file, the model, then — each only when set — the prompt, the
/// response format, and the temperature.
pub open spec fn spec_translation_fields(
    file_data: Seq<u8>,
    file_name: Seq<char>,
    model: Seq<char>,
    prompt: Option<String>,
    response_format: Option<TranscriptionResponseFormat>,
    temperature_text: Option<String>,
) -> Seq<FieldView> {
    seq![FieldView::File { name: "file"@, file_name, data: file_data }]
        + seq![FieldView::Text { name: "model"@, value: model }] + opt_text_field("prompt"@, prompt)
        + (match response_format {
        Some(f) => seq![
            FieldView::Text { name: "response_format"@, value: spec_transcription_format_value(f) },
        ],
        None => Seq::<FieldView>::empty(),
    }) + opt_text_field("temperature"@, temperature_text)
}

/// Builds the multipart form of a translation request.
pub fn translation_form_fields(
    file_data: Vec<u8>,
    file_name: &str,
    model: &str,
    prompt: Option<String>,
    response_format: Option<TranscriptionResponseFormat>,
    temperature_text: Option<String>,
) -> (r: Vec<MultipartField>)
    ensures
        fields_view(r@) == spec_translation_fields(
            file_data@,
            file_name@,
            model@,
            prompt,
            response_format,
            temperature_text,
        ),
{
    let ghost expected = spec_translation_fields(
        file_data@,
        file_name@,
        model@,
        prompt,
        response_format,
        temperature_text,
    );
    let mut r: Vec<MultipartField> = Vec::new();
    r.push(
        MultipartField::File {
            name: String::from_str("file"),
            file_name: String::from_str(file_name),
            data: file_data,
        },
    );
    r.push(
        MultipartField::Text { name: String::from_str("model"), value: String::from_str(model) },
    );
    if let Some(p) = prompt {
        r.push(MultipartField::Text { name: String::from_str("prompt"), value: p });
    }
    if let Some(f) = response_format {
        r.push(
            MultipartField::Text {
                name: String::from_str("response_format"),
                value: String::from_str(f.form_value()),
            },
        );
    }
    if let Some(t) = temperature_text {
        r.push(MultipartField::Text { name: String::from_str("temperature"), value: t });
    }
    proof {
        assert(fields_view(r@) =~= expected);
    }
    r
}

} // verus!
