//! Whether a byte string is a well-formed JSON document.  The grammar
//! itself is the parser crate's business; the pipeline only needs the
//! yes-or-no answer, which depends on the bytes alone.

use vstd::prelude::*;

verus! {

/// Whether a byte string parses as a well-formed JSON document: the
/// verdict of serde_json's parser, a function of the bytes alone.
pub uninterp spec fn json_accepts(body: Seq<u8>) -> bool;

/// Relies on `serde_json::from_slice::<serde_json::Value>`: whether it
/// succeeds depends on the input bytes alone.
#[verifier::external_body]
pub(crate) fn parse_json_ok(body: &[u8]) -> (r: bool)
    ensures
        r == json_accepts(body@),
{
    serde_json::from_slice::<serde_json::Value>(body).is_ok()
}

} // verus!
