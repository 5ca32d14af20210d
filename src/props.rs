//! Decoding of an entity's properties document.
use vstd::prelude::*;

verus! {

/// Whether a text is, as a whole, one JSON object (as `serde_json` reads it).
pub uninterp spec fn json_object_text(s: Seq<char>) -> bool;

pub open spec fn empty_object_text() -> Seq<char> {
    "{}"@
}

/// The properties a cell's JSON text stands for: the text itself when it is
/// a JSON object, the empty object when it is missing or anything else.
pub open spec fn decoded_props(raw: Option<Seq<char>>) -> Seq<char> {
    match raw {
        Some(t) => if json_object_text(t) { t } else { empty_object_text() },
        None => empty_object_text(),
    }
}

/// Relies on `serde_json::from_str` into a `serde_json::Map`: it succeeds
/// exactly when the whole text is one JSON object.
#[verifier::external_body]
fn is_json_object(s: &str) -> (r: bool)
    ensures
        r == json_object_text(s@),
{
    serde_json::from_str::<serde_json::Map<String, serde_json::Value>>(s).is_ok()
}

/// Decodes a properties document; it never fails, and what it returns is
/// always the text of a JSON object.
pub fn parse_props(raw: Option<String>) -> (r: String)
    ensures
        r@ == decoded_props(match raw { Some(t) => Some(t@), None => None }),
{
    match raw {
        None => "{}".to_owned(),
        Some(t) => {
            if is_json_object(t.as_str()) {
                t
            } else {
                "{}".to_owned()
            }
        },
    }
}

} // verus!
