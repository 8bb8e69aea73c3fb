//! The body of a run request, built from the caller's template parameters.

use vstd::prelude::*;
use vstd::string::*;
use crate::json::{json_parse, parse_json, JsonDocument, JsonShape};

verus! {

/// Why a template-parameter text was refused.
#[derive(Clone, Copy, Debug, PartialEq, Eq, Structural)]
pub enum MalformedParametersError {
    /// The text is not a JSON document.
    InvalidJson,
    /// The text is a JSON document, but not an object.
    NotAnObject,
}

/// The payload of a run request. `template_parameters` is the compact JSON
/// text of an object; the rest of the payload is fixed.
#[derive(Clone, Debug, PartialEq, Eq)]
pub struct RunRequestBody {
    pub template_parameters: String,
}

/// The text of an object without members.
pub open spec fn empty_object() -> Seq<char> {
    "{}"@
}

/// The fixed part of the payload that stands before the template parameters.
pub open spec fn envelope_head() -> Seq<char> {
    "{\"resources\":{\"repositories\":{\"self\":{}}},\"templateParameters\":"@
}

/// The fixed part of the payload that stands behind the template parameters.
pub open spec fn envelope_tail() -> Seq<char> {
    "}"@
}

/// The template parameters that a parsed text stands for: the compact text of
/// the document where it is an object, an error for every other outcome.
pub open spec fn parameters_of(parsed: Option<(JsonShape, Seq<char>)>) -> Result<
    Seq<char>,
    MalformedParametersError,
> {
    match parsed {
        None => Err(MalformedParametersError::InvalidJson),
        Some((shape, text)) => if shape is Object {
            Ok(text)
        } else {
            Err(MalformedParametersError::NotAnObject)
        },
    }
}

/// The template parameters that a raw text stands for: an empty object where
/// the text is empty, else what `serde_json` parses it to.
pub open spec fn build_spec(raw: Seq<char>) -> Result<Seq<char>, MalformedParametersError> {
    if raw.len() == 0 {
        Ok(empty_object())
    } else {
        parameters_of(json_parse(raw))
    }
}

impl RunRequestBody {
    /// The payload as it goes over the wire.
    pub open spec fn wire_text(&self) -> Seq<char> {
        envelope_head() + self.template_parameters@ + envelope_tail()
    }

    /// A body without template parameters.
    pub fn empty() -> (body: RunRequestBody)
        ensures
            body.template_parameters@ == empty_object(),
    {
        RunRequestBody { template_parameters: String::from_str("{}") }
    }

    /// Renders the payload: the fixed envelope round the template parameters.
    pub fn to_json_text(&self) -> (text: String)
        ensures
            text@ == self.wire_text(),
    {
        let mut text = String::from_str(
            "{\"resources\":{\"repositories\":{\"self\":{}}},\"templateParameters\":",
        );
        text.append(self.template_parameters.as_str());
        text.append("}");
        text
    }
}

/// Builds run-request bodies from template-parameter texts.
pub struct RequestBodyBuilder;

impl RequestBodyBuilder {
    /// Turns the outcome of parsing a non-empty parameter text into a body:
    /// an object is taken over as it is, anything else is refused.
    pub fn from_parsed(parsed: Option<JsonDocument>) -> (r: Result<
        RunRequestBody,
        MalformedParametersError,
    >)
        ensures
            match parameters_of(
                match parsed {
                    Some(doc) => Some(doc@),
                    None => None,
                },
            ) {
                Ok(text) => r is Ok && r->Ok_0.template_parameters@ == text,
                Err(e) => r == Err::<RunRequestBody, MalformedParametersError>(e),
            },
    {
        match parsed {
            None => Err(MalformedParametersError::InvalidJson),
            Some(doc) => {
                match doc.shape {
                    JsonShape::Object => Ok(RunRequestBody { template_parameters: doc.text }),
                    _ => Err(MalformedParametersError::NotAnObject),
                }
            },
        }
    }

    /// Builds the body for a raw parameter text. An empty text gives a body
    /// with an empty object and is not parsed; any other text must parse to
    /// a JSON object, whose compact text the body then carries.
    pub fn build(raw: &str) -> (r: Result<RunRequestBody, MalformedParametersError>)
        ensures
            match build_spec(raw@) {
                Ok(text) => r is Ok && r->Ok_0.template_parameters@ == text,
                Err(e) => r == Err::<RunRequestBody, MalformedParametersError>(e),
            },
    {
        if raw.is_empty() {
            Ok(RunRequestBody::empty())
        } else {
            match parse_json(raw) {
                Ok(doc) => RequestBodyBuilder::from_parsed(Some(doc)),
                Err(_) => RequestBodyBuilder::from_parsed(None),
            }
        }
    }
}

/// A body is built for the empty text and for the texts that parse to a JSON
/// object, and for no other: arrays, strings, numbers, booleans, null and
/// texts that are no JSON are all refused.
pub proof fn lemma_only_objects_build(raw: Seq<char>)
    ensures
        build_spec(raw) is Ok <==> (raw.len() == 0 || (json_parse(raw) matches Some((shape, _))
            && shape is Object)),
        raw.len() == 0 ==> build_spec(raw) == Ok::<Seq<char>, MalformedParametersError>(
            empty_object(),
        ),
        raw.len() > 0 && json_parse(raw) is None ==> build_spec(raw) == Err::<
            Seq<char>,
            MalformedParametersError,
        >(MalformedParametersError::InvalidJson),
{
}

} // verus!
