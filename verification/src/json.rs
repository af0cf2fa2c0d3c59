//! Whether a payload is JSON, as `serde_json` reads it.

use vstd::prelude::*;

verus! {

/// Whether `serde_json` can read the text as one JSON value. The grammar is
/// `serde_json`'s and is not written out here: the contracts only tell the
/// texts that it takes from those that it does not.
pub uninterp spec fn json_well_formed(text: Seq<char>) -> bool;

/// `serde_json::from_str` into a `serde_json::Value`: says whether the text
/// is read as a JSON value. The answer depends on the text alone.
#[verifier::external_body]
pub(crate) fn is_json(text: &str) -> (answer: bool)
    ensures
        answer == json_well_formed(text@),
{
    serde_json::from_str::<serde_json::Value>(text).is_ok()
}

} // verus!
