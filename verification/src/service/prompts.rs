//! Request construction for the prompts endpoint.

use vstd::prelude::*;

verus! {

/// The path that runs one saved prompt.
pub fn prompt_completions_path(prompt_id: &str) -> (r: String)
    ensures
        r@ == "/prompts/"@ + prompt_id@ + "/completions"@,
{
    String::from_str("/prompts/").concat(prompt_id).concat("/completions")
}

/// The path that renders one saved prompt.
pub fn prompt_render_path(prompt_id: &str) -> (r: String)
    ensures
        r@ == "/prompts/"@ + prompt_id@ + "/render"@,
{
    String::from_str("/prompts/").concat(prompt_id).concat("/render")
}

} // verus!
