//! Request construction for the image endpoints: the multipart forms of
//! edits and variations.

use vstd::prelude::*;

use crate::model::images::{
    spec_image_format_value, spec_image_size_value, CreateImageEditRequest,
    CreateImageVariationRequest,
};
use crate::pipeline::{fields_view, FieldView, MultipartField};
use crate::service::audio::opt_text_field;
use crate::text::{i32_to_string, spec_i64_str};

verus! {

/// The optional trailing fields shared by edits and variations: each only
/// when set, the model, the image count, the size, the response format,
/// and the user identifier.
pub open spec fn spec_image_option_fields(
    model: Option<String>,
    n: Option<i32>,
    size: Option<crate::model::images::ImageSize>,
    response_format: Option<crate::model::images::ImageResponseFormat>,
    user: Option<String>,
) -> Seq<FieldView> {
    opt_text_field("model"@, model) + (match n {
        Some(count) => seq![FieldView::Text { name: "n"@, value: spec_i64_str(count as int) }],
        None => Seq::<FieldView>::empty(),
    }) + (match size {
        Some(s) => seq![FieldView::Text { name: "size"@, value: spec_image_size_value(s) }],
        None => Seq::<FieldView>::empty(),
    }) + (match response_format {
        Some(f) => seq![
            FieldView::Text { name: "response_format"@, value: spec_image_format_value(f) },
        ],
        None => Seq::<FieldView>::empty(),
    }) + opt_text_field("user"@, user)
}

fn push_image_option_fields(
    r: &mut Vec<MultipartField>,
    model: Option<String>,
    n: Option<i32>,
    size: Option<crate::model::images::ImageSize>,
    response_format: Option<crate::model::images::ImageResponseFormat>,
    user: Option<String>,
)
    ensures
        fields_view(final(r)@) == fields_view(old(r)@) + spec_image_option_fields(
            model,
            n,
            size,
            response_format,
            user,
        ),
{
    let ghost base = r@;
    if let Some(m) = model {
        r.push(MultipartField::Text { name: String::from_str("model"), value: m });
    }
    if let Some(count) = n {
        r.push(MultipartField::Text { name: String::from_str("n"), value: i32_to_string(count) });
    }
    if let Some(s) = size {
        r.push(
            MultipartField::Text {
                name: String::from_str("size"),
                value: String::from_str(s.form_value()),
            },
        );
    }
    if let Some(f) = response_format {
        r.push(
            MultipartField::Text {
                name: String::from_str("response_format"),
                value: String::from_str(f.form_value()),
            },
        );
    }
    if let Some(u) = user {
        r.push(MultipartField::Text { name: String::from_str("user"), value: u });
    }
    proof {
        assert(fields_view(r@) =~= fields_view(base) + spec_image_option_fields(
            model,
            n,
            size,
            response_format,
            user,
        ));
    }
}

/// The form fields of an image-edit request, in their fixed order: the
/// image, the prompt, the mask when both its bytes and its name are
/// given, then the shared optional fields.
pub open spec fn spec_image_edit_fields(
    image_data: Seq<u8>,
    image_name: Seq<char>,
    mask: Option<(Seq<u8>, Seq<char>)>,
    req: CreateImageEditRequest,
) -> Seq<FieldView> {
    seq![FieldView::File { name: "image"@, file_name: image_name, data: image_data }]
        + seq![FieldView::Text { name: "prompt"@, value: req.prompt@ }] + (match mask {
        Some(m) => seq![FieldView::File { name: "mask"@, file_name: m.1, data: m.0 }],
        None => Seq::<FieldView>::empty(),
    }) + spec_image_option_fields(req.model, req.n, req.size, req.response_format, req.user)
}

/// Builds the multipart form of an image-edit request.  The mask part is
/// attached only when both its bytes and its name are given.
pub fn image_edit_form_fields(
    image_data: Vec<u8>,
    image_name: &str,
    mask_data: Option<Vec<u8>>,
    mask_name: Option<&str>,
    request: CreateImageEditRequest,
) -> (r: Vec<MultipartField>)
    ensures
        fields_view(r@) == spec_image_edit_fields(
            image_data@,
            image_name@,
            match (mask_data, mask_name) {
                (Some(d), Some(n)) => Some((d@, n@)),
                _ => None,
            },
            request,
        ),
{
    let ghost mask_view: Option<(Seq<u8>, Seq<char>)> = if mask_data is Some && mask_name is Some {
        Some((mask_data->0@, mask_name->0@))
    } else {
        None
    };
    let ghost expected = spec_image_edit_fields(image_data@, image_name@, mask_view, request);
    let mut r: Vec<MultipartField> = Vec::new();
    r.push(
        MultipartField::File {
            name: String::from_str("image"),
            file_name: String::from_str(image_name),
            data: image_data,
        },
    );
    r.push(MultipartField::Text { name: String::from_str("prompt"), value: request.prompt });
    if let (Some(d), Some(n)) = (mask_data, mask_name) {
        r.push(
            MultipartField::File {
                name: String::from_str("mask"),
                file_name: String::from_str(n),
                data: d,
            },
        );
    }
    push_image_option_fields(
        &mut r,
        request.model,
        request.n,
        request.size,
        request.response_format,
        request.user,
    );
    proof {
        assert(fields_view(r@) =~= expected);
    }
    r
}

/// The form fields of an image-variation request, in their fixed order:
/// the image, then the shared optional fields.
pub open spec fn spec_image_variation_fields(
    image_data: Seq<u8>,
    image_name: Seq<char>,
    req: CreateImageVariationRequest,
) -> Seq<FieldView> {
    seq![FieldView::File { name: "image"@, file_name: image_name, data: image_data }]
        + spec_image_option_fields(req.model, req.n, req.size, req.response_format, req.user)
}

/// Builds the multipart form of an image-variation request.
pub fn image_variation_form_fields(
    image_data: Vec<u8>,
    image_name: &str,
    request: CreateImageVariationRequest,
) -> (r: Vec<MultipartField>)
    ensures
        fields_view(r@) == spec_image_variation_fields(image_data@, image_name@, request),
{
    let ghost expected = spec_image_variation_fields(image_data@, image_name@, request);
    let mut r: Vec<MultipartField> = Vec::new();
    r.push(
        MultipartField::File {
            name: String::from_str("image"),
            file_name: String::from_str(image_name),
            data: image_data,
        },
    );
    push_image_option_fields(
        &mut r,
        request.model,
        request.n,
        request.size,
        request.response_format,
        request.user,
    );
    proof {
        assert(fields_view(r@) =~= expected);
    }
    r
}

} // verus!
