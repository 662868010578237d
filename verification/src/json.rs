//! The one outside call the decoder depends on: parsing a text column as a
//! JSON document.

use vstd::prelude::*;

verus! {

/// serde_json's document type, declared so a parsed document can stand in the
/// domain value model. What is inside stays opaque to this crate: the decoder
/// only carries documents, it never reads them.
#[verifier::external_type_specification]
#[verifier::external_body]
pub struct ExValue(serde_json::Value);

/// Whether a text is a well-formed JSON document, i.e. whether
/// `serde_json::from_str::<serde_json::Value>` accepts it. The JSON grammar is
/// not restated here; acceptance depends on the text alone.
pub uninterp spec fn json_parses(s: Seq<char>) -> bool;

/// Relies on `serde_json::from_str::<serde_json::Value>`: it returns the parsed
/// document exactly when the input text is well-formed JSON, and whether it is
/// depends on the text alone.
#[verifier::external_body]
pub(crate) fn parse_json(s: &str) -> (r: Option<serde_json::Value>)
    ensures
        r is Some <==> json_parses(s@),
{
    serde_json::from_str(s).ok()
}

} // verus!
