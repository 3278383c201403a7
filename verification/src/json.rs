//! Reading JSON documents. Parsing is `serde_json`'s work; this module says
//! what the session logic relies on.

use vstd::prelude::*;

verus! {

/// What a JSON object holds under one key, as far as the protocol cares.
#[derive(Clone, Debug, PartialEq, Eq)]
pub enum JsonField {
    /// The object has no such key, or the document is not an object.
    Absent,
    /// `null`.
    Null,
    /// A string.
    Text(String),
    /// A number; its value where it is a non-negative integer that fits 64
    /// bits.
    Number(Option<u64>),
    /// A boolean, an array or an object.
    Other,
}

/// What contracts say of a value of [`JsonField`]: text stands as a sequence
/// of characters.
pub enum JsonFieldView {
    Absent,
    Null,
    Text(Seq<char>),
    Number(Option<u64>),
    Other,
}

impl View for JsonField {
    type V = JsonFieldView;

    open spec fn view(&self) -> JsonFieldView {
        match self {
            JsonField::Absent => JsonFieldView::Absent,
            JsonField::Null => JsonFieldView::Null,
            JsonField::Text(text) => JsonFieldView::Text(text@),
            JsonField::Number(value) => JsonFieldView::Number(*value),
            JsonField::Other => JsonFieldView::Other,
        }
    }
}

/// `serde_json::Value`, a parsed JSON document. Nothing inside it is
/// visible here; what it holds is read through [`json_field`].
#[verifier::external_type_specification]
#[verifier::external_body]
pub struct ExJsonValue(serde_json::Value);

/// The members of a parsed document: for a JSON object, what it holds under
/// each of its keys; for any other document, nothing.
pub uninterp spec fn json_members(doc: serde_json::Value) -> Map<Seq<char>, JsonFieldView>;

/// The members of the document that a text parses to, or `None` where the
/// text is not one JSON document.
pub uninterp spec fn json_text_members(text: Seq<char>) -> Option<Map<Seq<char>, JsonFieldView>>;

/// What `members` holds under `key`; `Absent` where it has no such key.
pub open spec fn member(members: Map<Seq<char>, JsonFieldView>, key: Seq<char>) -> JsonFieldView {
    if members.contains_key(key) {
        members[key]
    } else {
        JsonFieldView::Absent
    }
}

/// `serde_json::from_str` at type `serde_json::Value`: parses a text that
/// holds exactly one JSON document. Whether it succeeds and what the document
/// holds depend on the text alone; a syntax error gives `None`.
#[verifier::external_body]
pub(crate) fn parse_json(text: &str) -> (doc: Option<serde_json::Value>)
    ensures
        match doc {
            Some(value) => json_text_members(text@) == Some(json_members(value)),
            None => json_text_members(text@) is None,
        },
{
    serde_json::from_str::<serde_json::Value>(text).ok()
}

/// `serde_json::Value::get` with a string key, and `Number::as_u64` on a
/// number found there: what the document holds under `key`, told apart by
/// kind. A document that is not an object holds nothing under any key.
#[verifier::external_body]
pub(crate) fn json_field(doc: &serde_json::Value, key: &str) -> (field: JsonField)
    ensures
        field@ == member(json_members(*doc), key@),
{
    match doc.get(key) {
        None => JsonField::Absent,
        Some(serde_json::Value::Null) => JsonField::Null,
        Some(serde_json::Value::Bool(_)) => JsonField::Other,
        Some(serde_json::Value::Number(number)) => JsonField::Number(number.as_u64()),
        Some(serde_json::Value::String(text)) => JsonField::Text(text.clone()),
        Some(serde_json::Value::Array(_)) => JsonField::Other,
        Some(serde_json::Value::Object(_)) => JsonField::Other,
    }
}

} // verus!
