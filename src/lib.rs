use vstd::prelude::*;

pub mod error;
pub mod laws;
pub mod location;
pub mod platform;
pub mod session;

verus! {

/// The document that stands for "nothing saved yet": an empty JSON object.
pub fn default_document() -> (r: String)
    ensures
        r@ == session::default_document_spec(),
{
    proof { reveal_strlit("{}"); }
    String::from_str("{}")
}

} // verus!
