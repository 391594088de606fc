//! Tests of the image endpoint's request types and multipart forms.

use portkey_sdk::model::{
    CreateImageEditRequest, CreateImageRequest, CreateImageVariationRequest, ImageQuality,
    ImageResponseFormat, ImageSize, ImageStyle,
};
use portkey_sdk::pipeline::MultipartField;
use portkey_sdk::service::images::{image_edit_form_fields, image_variation_form_fields};

#[test]
fn test_create_image_request() {
    let request = CreateImageRequest {
        prompt: "A cute baby sea otter".to_string(),
        model: Some("dall-e-3".to_string()),
        n: Some(1),
        quality: Some(ImageQuality::Hd),
        size: Some(ImageSize::Size1024x1024),
        style: Some(ImageStyle::Vivid),
        response_format: None,
        user: None,
    };

    assert_eq!(request.prompt, "A cute baby sea otter");
    assert_eq!(request.model, Some("dall-e-3".to_string()));
    assert_eq!(request.n, Some(1));
}

fn text_fields(fields: &[MultipartField]) -> Vec<(String, String)> {
    fields
        .iter()
        .filter_map(|f| match f {
            MultipartField::Text { name, value } => Some((name.clone(), value.clone())),
            MultipartField::File { .. } => None,
        })
        .collect()
}

#[test]
fn test_image_edit_form_fields() {
    let request = CreateImageEditRequest {
        prompt: "Add a hat".to_string(),
        model: Some("dall-e-2".to_string()),
        n: Some(2),
        size: Some(ImageSize::Size512x512),
        response_format: Some(ImageResponseFormat::B64Json),
        user: None,
    };
    let fields = image_edit_form_fields(
        vec![1, 2, 3],
        "otter.png",
        Some(vec![9, 9]),
        Some("mask.png"),
        request,
    );
    match &fields[0] {
        MultipartField::File {
            name,
            file_name,
            data,
        } => {
            assert_eq!(name, "image");
            assert_eq!(file_name, "otter.png");
            assert_eq!(data, &vec![1, 2, 3]);
        }
        other => panic!("expected the image part first, got {:?}", other),
    }
    match &fields[2] {
        MultipartField::File { name, .. } => assert_eq!(name, "mask"),
        other => panic!("expected the mask part third, got {:?}", other),
    }
    assert_eq!(
        text_fields(&fields),
        vec![
            ("prompt".to_string(), "Add a hat".to_string()),
            ("model".to_string(), "dall-e-2".to_string()),
            ("n".to_string(), "2".to_string()),
            ("size".to_string(), "512x512".to_string()),
            ("response_format".to_string(), "b64_json".to_string()),
        ]
    );
}

#[test]
fn test_image_edit_mask_needs_both_parts() {
    let request = CreateImageEditRequest {
        prompt: "p".to_string(),
        model: None,
        n: None,
        size: None,
        response_format: None,
        user: None,
    };
    let fields = image_edit_form_fields(vec![1], "a.png", Some(vec![2]), None, request);
    assert_eq!(fields.len(), 2);
}

#[test]
fn test_image_variation_form_fields() {
    let request = CreateImageVariationRequest {
        model: Some("dall-e-2".to_string()),
        n: Some(2),
        size: Some(ImageSize::Size1024x1024),
        response_format: Some(ImageResponseFormat::Url),
        user: Some("u-1".to_string()),
    };
    let fields = image_variation_form_fields(vec![7], "otter.png", request);
    assert_eq!(fields.len(), 6);
    assert_eq!(
        text_fields(&fields),
        vec![
            ("model".to_string(), "dall-e-2".to_string()),
            ("n".to_string(), "2".to_string()),
            ("size".to_string(), "1024x1024".to_string()),
            ("response_format".to_string(), "url".to_string()),
            ("user".to_string(), "u-1".to_string()),
        ]
    );
}
