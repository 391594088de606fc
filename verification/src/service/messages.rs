//! Request construction for the messages endpoint: the paths of messages
//! and message files nested under threads.

use vstd::prelude::*;

verus! {

/// The path of a thread's messages.
pub fn messages_path(thread_id: &str) -> (r: String)
    ensures
        r@ == "/threads/"@ + thread_id@ + "/messages"@,
{
    String::from_str("/threads/").concat(thread_id).concat("/messages")
}

/// The path of one message.
pub fn message_path(thread_id: &str, message_id: &str) -> (r: String)
    ensures
        r@ == "/threads/"@ + thread_id@ + "/messages/"@ + message_id@,
{
    String::from_str("/threads/").concat(thread_id).concat("/messages/").concat(message_id)
}

/// The path of one message's files.
pub fn message_files_path(thread_id: &str, message_id: &str) -> (r: String)
    ensures
        r@ == "/threads/"@ + thread_id@ + "/messages/"@ + message_id@ + "/files"@,
{
    String::from_str("/threads/").concat(thread_id).concat("/messages/").concat(message_id).concat(
        "/files",
    )
}

/// The path of one message file.
pub fn message_file_path(thread_id: &str, message_id: &str, file_id: &str) -> (r: String)
    ensures
        r@ == "/threads/"@ + thread_id@ + "/messages/"@ + message_id@ + "/files/"@ + file_id@,
{
    String::from_str("/threads/").concat(thread_id).concat("/messages/").concat(message_id).concat(
        "/files/",
    ).concat(file_id)
}

} // verus!
