//! Tests of path and form construction for the audio, files, runs,
//! messages, logs and responses endpoints.

use portkey_sdk::model::audio::{TimestampGranularity, TranscriptionResponseFormat};
use portkey_sdk::model::files::UploadFileRequest;
use portkey_sdk::model::logs::ListLogExportsParams;
use portkey_sdk::model::responses::ListInputItemsParams;
use portkey_sdk::model::PaginationParams;
use portkey_sdk::pipeline::MultipartField;
use portkey_sdk::service::audio::{transcription_form_fields, translation_form_fields};
use portkey_sdk::service::files::{file_content_path, file_path, upload_file_form_fields};
use portkey_sdk::service::logs::{list_log_exports_query, log_export_start_path};
use portkey_sdk::service::messages::{message_file_path, messages_path};
use portkey_sdk::service::responses::list_input_items_request;
use portkey_sdk::service::runs::{cancel_run_path, list_run_steps_path, list_runs_path};
use portkey_sdk::service::assistants::{assistant_file_path, assistant_path};
use portkey_sdk::service::batches::{batch_cancel_path, batch_path};
use portkey_sdk::service::feedback::feedback_path;
use portkey_sdk::service::fine_tuning::{
    fine_tuning_job_cancel_path, fine_tuning_job_events_path, fine_tuning_job_path,
};
use portkey_sdk::service::prompts::{prompt_completions_path, prompt_render_path};
use portkey_sdk::service::threads::thread_path;

#[test]
fn test_transcription_form_fields_order() {
    let fields = transcription_form_fields(
        vec![0xAA, 0xBB],
        "audio.mp3",
        "whisper-1",
        Some("en".to_string()),
        None,
        Some(TranscriptionResponseFormat::VerboseJson),
        Some("0.2".to_string()),
        Some(vec![TimestampGranularity::Word, TimestampGranularity::Segment]),
    );
    match &fields[0] {
        MultipartField::File {
            name,
            file_name,
            data,
        } => {
            assert_eq!(name, "file");
            assert_eq!(file_name, "audio.mp3");
            assert_eq!(data, &vec![0xAA, 0xBB]);
        }
        other => panic!("expected the file part first, got {:?}", other),
    }
    let texts: Vec<(String, String)> = fields
        .iter()
        .filter_map(|f| match f {
            MultipartField::Text { name, value } => Some((name.clone(), value.clone())),
            _ => None,
        })
        .collect();
    assert_eq!(
        texts,
        vec![
            ("model".to_string(), "whisper-1".to_string()),
            ("language".to_string(), "en".to_string()),
            ("response_format".to_string(), "verbose_json".to_string()),
            ("temperature".to_string(), "0.2".to_string()),
            ("timestamp_granularities[]".to_string(), "word".to_string()),
            ("timestamp_granularities[]".to_string(), "segment".to_string()),
        ]
    );
}

#[test]
fn test_translation_form_fields() {
    let fields = translation_form_fields(
        vec![1],
        "german.m4a",
        "whisper-1",
        Some("Optional prompt in English".to_string()),
        Some(TranscriptionResponseFormat::Json),
        None,
    );
    assert_eq!(fields.len(), 4);
    match &fields[3] {
        MultipartField::Text { name, value } => {
            assert_eq!(name, "response_format");
            assert_eq!(value, "json");
        }
        other => panic!("expected a text field, got {:?}", other),
    }
}

#[test]
fn test_upload_file_form_fields() {
    let fields = upload_file_form_fields(UploadFileRequest {
        file: vec![1, 2, 3, 4],
        filename: "data.jsonl".to_string(),
        purpose: "fine-tune".to_string(),
    });
    assert_eq!(fields.len(), 2);
    match &fields[0] {
        MultipartField::File {
            name,
            file_name,
            data,
        } => {
            assert_eq!(name, "file");
            assert_eq!(file_name, "data.jsonl");
            assert_eq!(data, &vec![1, 2, 3, 4]);
        }
        other => panic!("expected the file part first, got {:?}", other),
    }
    match &fields[1] {
        MultipartField::Text { name, value } => {
            assert_eq!(name, "purpose");
            assert_eq!(value, "fine-tune");
        }
        other => panic!("expected the purpose field, got {:?}", other),
    }
}

#[test]
fn test_file_paths() {
    assert_eq!(file_path("file-abc"), "/files/file-abc");
    assert_eq!(file_content_path("file-abc"), "/files/file-abc/content");
}

#[test]
fn test_list_runs_path() {
    assert_eq!(
        list_runs_path("thread_1", Some(10), Some("desc"), None, None),
        "/threads/thread_1/runs?limit=10&order=desc"
    );
    assert_eq!(
        list_runs_path("thread_1", None, None, None, None),
        "/threads/thread_1/runs"
    );
    assert_eq!(
        list_runs_path("t", None, None, Some("run_a"), Some("run_b")),
        "/threads/t/runs?after=run_a&before=run_b"
    );
}

#[test]
fn test_list_run_steps_path() {
    assert_eq!(
        list_run_steps_path("t1", "r1", Some(-3), None, None, None),
        "/threads/t1/runs/r1/steps?limit=-3"
    );
    assert_eq!(
        cancel_run_path("t1", "r1"),
        "/threads/t1/runs/r1/cancel"
    );
}

#[test]
fn test_message_paths() {
    assert_eq!(messages_path("t1"), "/threads/t1/messages");
    assert_eq!(
        message_file_path("t1", "m1", "f1"),
        "/threads/t1/messages/m1/files/f1"
    );
}

#[test]
fn test_log_export_paths_and_query() {
    assert_eq!(log_export_start_path("e1"), "/logs/exports/e1/start");
    let q = list_log_exports_query(&ListLogExportsParams {
        workspace_id: Some("ws-1".to_string()),
    });
    assert_eq!(q, vec![("workspace_id".to_string(), "ws-1".to_string())]);
    let q = list_log_exports_query(&ListLogExportsParams { workspace_id: None });
    assert!(q.is_empty());
}

#[test]
fn test_list_input_items_request() {
    let desc = list_input_items_request(
        "resp-1",
        &ListInputItemsParams {
            limit: Some(50),
            offset: Some(0),
        },
    );
    assert_eq!(desc.path, "/responses/resp-1/input_items");
    assert_eq!(
        desc.query,
        vec![
            ("limit".to_string(), "50".to_string()),
            ("offset".to_string(), "0".to_string()),
        ]
    );
}

#[test]
fn test_resource_paths() {
    assert_eq!(assistant_path("asst_1"), "/assistants/asst_1");
    assert_eq!(assistant_file_path("asst_1", "f1"), "/assistants/asst_1/files/f1");
    assert_eq!(batch_path("b1"), "/batches/b1");
    assert_eq!(batch_cancel_path("b1"), "/batches/b1/cancel");
    assert_eq!(feedback_path("fb1"), "/feedback/fb1");
    assert_eq!(fine_tuning_job_path("ft1"), "/fine_tuning/jobs/ft1");
    assert_eq!(fine_tuning_job_cancel_path("ft1"), "/fine_tuning/jobs/ft1/cancel");
    assert_eq!(fine_tuning_job_events_path("ft1"), "/fine_tuning/jobs/ft1/events");
    assert_eq!(prompt_completions_path("p1"), "/prompts/p1/completions");
    assert_eq!(prompt_render_path("p1"), "/prompts/p1/render");
    assert_eq!(thread_path("t1"), "/threads/t1");
}

#[test]
fn test_pagination_params() {
    let p = PaginationParams::new()
        .with_limit(25)
        .with_order("desc")
        .with_after("obj_a")
        .with_before("obj_b");
    assert_eq!(
        p.to_query_params(),
        vec![
            ("limit".to_string(), "25".to_string()),
            ("order".to_string(), "desc".to_string()),
            ("after".to_string(), "obj_a".to_string()),
            ("before".to_string(), "obj_b".to_string()),
        ]
    );
    assert!(PaginationParams::new().to_query_params().is_empty());
}

#[test]
fn test_number_rendering() {
    assert_eq!(portkey_sdk::text::i32_to_string(0), "0");
    assert_eq!(portkey_sdk::text::i32_to_string(-120), "-120");
    assert_eq!(portkey_sdk::text::u64_to_string(18446744073709551615), "18446744073709551615");
}

#[test]
fn test_parsing_helpers() {
    assert_eq!(portkey_sdk::text::parse_u64("300"), Some(300));
    assert_eq!(portkey_sdk::text::parse_u64("+7"), Some(7));
    assert_eq!(portkey_sdk::text::parse_u64(""), None);
    assert_eq!(portkey_sdk::text::parse_u64("+"), None);
    assert_eq!(portkey_sdk::text::parse_u64("-3"), None);
    assert_eq!(portkey_sdk::text::parse_u64("18446744073709551615"), Some(u64::MAX));
    assert_eq!(portkey_sdk::text::parse_u64("18446744073709551616"), None);
    assert_eq!(portkey_sdk::text::parse_u64("12a"), None);
    assert_eq!(portkey_sdk::text::parse_u64("99999999999999999999999"), None);
    assert_eq!(portkey_sdk::text::parse_bool("true"), Some(true));
    assert_eq!(portkey_sdk::text::parse_bool("false"), Some(false));
    assert_eq!(portkey_sdk::text::parse_bool("True"), None);
}
