//! JSON documents as the run-request logic sees them: a shape and a compact
//! rendering. Parsing and rendering are done by `serde_json`.

use vstd::prelude::*;

verus! {

/// The outermost shape of a JSON document.
#[derive(Clone, Copy, Debug, PartialEq, Eq, Structural)]
pub enum JsonShape {
    Null,
    Bool,
    Number,
    Text,
    Array,
    Object,
}

/// A parsed JSON document: its outermost shape and its compact text.
#[derive(Clone, Debug, PartialEq, Eq)]
pub struct JsonDocument {
    pub shape: JsonShape,
    pub text: String,
}

impl JsonDocument {
    /// The document as a pair of plain values.
    pub open spec fn view(&self) -> (JsonShape, Seq<char>) {
        (self.shape, self.text@)
    }
}

#[verifier::external_type_specification]
#[verifier::external_body]
pub struct ExJsonError(serde_json::Error);

/// What `serde_json` makes of a text: nothing where it refuses the text (the
/// text is not one JSON document, or nests deeper than the parser follows),
/// else the document's outermost shape and its compact rendering.
pub uninterp spec fn json_parse(text: Seq<char>) -> Option<(JsonShape, Seq<char>)>;

/// Parses `raw` with `serde_json::from_str` into a `serde_json::Value`.
///
/// Trusted: the call fails exactly on the texts that `json_parse` rejects;
/// on success the document carries the variant of the parsed value and the
/// compact text that the value's `Display` writes, which together are
/// `json_parse` of the text. Both depend on the text alone, and writing a
/// parsed value does not fail. Nothing is claimed of the error's contents.
#[verifier::external_body]
pub(crate) fn parse_json(raw: &str) -> (r: Result<JsonDocument, serde_json::Error>)
    ensures
        r is Ok <==> json_parse(raw@) is Some,
        r matches Ok(doc) ==> json_parse(raw@) == Some(doc@),
{
    let value: serde_json::Value = serde_json::from_str(raw)?;
    let shape = match &value {
        serde_json::Value::Null => JsonShape::Null,
        serde_json::Value::Bool(_) => JsonShape::Bool,
        serde_json::Value::Number(_) => JsonShape::Number,
        serde_json::Value::String(_) => JsonShape::Text,
        serde_json::Value::Array(_) => JsonShape::Array,
        serde_json::Value::Object(_) => JsonShape::Object,
    };
    Ok(JsonDocument { shape, text: value.to_string() })
}

} // verus!
