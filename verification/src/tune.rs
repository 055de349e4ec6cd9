//! The command a tune-generation request hands to the worker.

use vstd::prelude::*;
use crate::json::{json_obj2_of, json_object_2};

verus! {

/// The serialized instruction for generating tunes from `text`: a two-entry
/// JSON object with the text and an empty soundfont.  The session manager
/// carries it as an opaque command payload.
pub fn build_tune_command(text: &str) -> (r: String)
    ensures
        r@ == json_obj2_of("text"@, text@, "soundfont"@, ""@),
{
    json_object_2("text", text, "soundfont", "")
}

} // verus!
