//! The upstream envelope: an opaque structured document that carries a
//! routing field. Parsing, field lookup and re-serialization are the work
//! of serde_json, and each is a function of the payload text alone, so
//! the engine speaks of them by name: whether the text is a document,
//! what routing text it holds at a field, and its canonical form.

use vstd::prelude::*;

verus! {

/// Whether a text is one well-formed structured document.
pub uninterp spec fn json_document(s: Seq<char>) -> bool;

/// The routing text the document encoded by `s` holds at `field`: the
/// field's value when the document is a map holding a string there, and
/// nothing otherwise.
pub uninterp spec fn doc_route(s: Seq<char>, field: Seq<char>) -> Option<Seq<char>>;

/// The canonical serialization of the document encoded by `s`.
pub uninterp spec fn doc_text(s: Seq<char>) -> Seq<char>;

/// Relies on serde_json::from_str::<Value>, Value::get and Value::as_str:
/// parsing succeeds exactly when the text is one well-formed document,
/// and parse, lookup and the field's text are functions of the text alone
/// (none panics, none reads anything else).
#[verifier::external_body]
pub(crate) fn extract_route(payload: &str, field: &str) -> (r: Option<String>)
    ensures
        (r is Some <==> (json_document(payload@) && doc_route(payload@, field@) is Some)),
        r matches Some(k) ==> doc_route(payload@, field@) == Some(k@),
{
    let doc: serde_json::Value = match serde_json::from_str(payload) {
        Ok(doc) => doc,
        Err(_) => return None,
    };
    match doc.get(field).and_then(|v| v.as_str()) {
        Some(k) => Some(k.to_owned()),
        None => None,
    }
}

/// Relies on serde_json::from_str::<Value> and serde_json::to_string: the
/// document re-serialized canonically. Both are functions of the text
/// alone (document maps keep their keys ordered), and serialization
/// cannot fail on a parsed document, whose maps are keyed by strings.
#[verifier::external_body]
pub(crate) fn canonical_text(payload: &str) -> (r: Option<String>)
    ensures
        (r is Some <==> json_document(payload@)),
        r matches Some(t) ==> t@ == doc_text(payload@),
{
    let doc: serde_json::Value = match serde_json::from_str(payload) {
        Ok(doc) => doc,
        Err(_) => return None,
    };
    match serde_json::to_string(&doc) {
        Ok(t) => Some(t),
        Err(_) => None,
    }
}

} // verus!
