//! JSON text for the bodies the client sends.

use vstd::prelude::*;

verus! {

/// The JSON string that stands for the text `s`: `s` between double quotes,
/// with the escapes that `serde_json` writes.
pub uninterp spec fn json_string(s: Seq<char>) -> Seq<char>;

/// Writes `s` as a JSON string by `serde_json::to_string`. That function
/// fails only where a value refuses to be written or a map has keys that are
/// not strings, and a text is neither, so the call always gives a string. What
/// it gives depends on `s` alone and is named `json_string`.
#[verifier::external_body]
pub(crate) fn quote(s: &str) -> (json: String)
    ensures
        json@ == json_string(s@),
{
    serde_json::to_string(s).unwrap_or_default()
}

} // verus!
