//! Request construction for the assistants endpoint.

use vstd::prelude::*;

verus! {

/// The path of one assistant.
pub fn assistant_path(assistant_id: &str) -> (r: String)
    ensures
        r@ == "/assistants/"@ + assistant_id@,
{
    String::from_str("/assistants/").concat(assistant_id)
}

/// The path of one assistant's files.
pub fn assistant_files_path(assistant_id: &str) -> (r: String)
    ensures
        r@ == "/assistants/"@ + assistant_id@ + "/files"@,
{
    String::from_str("/assistants/").concat(assistant_id).concat("/files")
}

/// The path of one assistant file.
pub fn assistant_file_path(assistant_id: &str, file_id: &str) -> (r: String)
    ensures
        r@ == "/assistants/"@ + assistant_id@ + "/files/"@ + file_id@,
{
    String::from_str("/assistants/").concat(assistant_id).concat("/files/").concat(file_id)
}

} // verus!
