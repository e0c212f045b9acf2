//! Native routes served in-process, without touching the backend.

use vstd::prelude::*;

verus! {

/// Body of the native greeting route: a fixed plaintext payload.
pub fn rust_handler() -> (r: &'static str)
    ensures
        r@ == "Hello, World!"@,
{
    "Hello, World!"
}

} // verus!
