//! Request construction for the files endpoint.

use vstd::prelude::*;

use crate::model::files::UploadFileRequest;
use crate::pipeline::{fields_view, FieldView, MultipartField};

verus! {

/// The form fields of a file upload, in their fixed order: the file part,
/// then its purpose.
pub open spec fn spec_upload_file_fields(req: UploadFileRequest) -> Seq<FieldView> {
    seq![
        FieldView::File { name: "file"@, file_name: req.filename@, data: req.file@ },
        FieldView::Text { name: "purpose"@, value: req.purpose@ },
    ]
}

/// Builds the multipart form of a file upload.
pub fn upload_file_form_fields(request: UploadFileRequest) -> (r: Vec<MultipartField>)
    ensures
        fields_view(r@) == spec_upload_file_fields(request),
{
    let ghost expected = spec_upload_file_fields(request);
    let mut r: Vec<MultipartField> = Vec::new();
    r.push(
        MultipartField::File {
            name: String::from_str("file"),
            file_name: request.filename,
            data: request.file,
        },
    );
    r.push(MultipartField::Text { name: String::from_str("purpose"), value: request.purpose });
    proof {
        assert(fields_view(r@) =~= expected);
    }
    r
}

/// The path of one file.
pub fn file_path(file_id: &str) -> (r: String)
    ensures
        r@ == "/files/"@ + file_id@,
{
    String::from_str("/files/").concat(file_id)
}

/// The path of one file's content.
pub fn file_content_path(file_id: &str) -> (r: String)
    ensures
        r@ == "/files/"@ + file_id@ + "/content"@,
{
    String::from_str("/files/").concat(file_id).concat("/content")
}

} // verus!
