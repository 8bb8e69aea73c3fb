//! The two calls of the pipeline service: where they go, how they are
//! authorized, and what their answers mean.

use vstd::prelude::*;
use vstd::string::*;
use crate::config::Config;
use crate::request::MalformedParametersError;
use crate::text::{decimal, decimal_text};

verus! {

/// What a successful trigger answers with.
#[derive(Clone, Debug, PartialEq, Eq)]
pub struct RunTriggerResult {
    pub pipeline_name: String,
    pub pipeline_id: i32,
    pub run_id: u32,
}

/// The state of a run at one poll. The tag is taken from the service as it is.
#[derive(Clone, Debug, PartialEq, Eq)]
pub struct RunStatusSnapshot {
    pub state: String,
}

/// Everything that can go wrong between the start and the end of a run.
#[derive(Clone, Debug, PartialEq, Eq)]
pub enum PipelineError {
    /// No credential was supplied under the variable named.
    MissingCredential { variable: String },
    /// The template parameters are not a JSON object.
    MalformedParameters(MalformedParametersError),
    /// The service refused to create the run.
    TriggerRejected { status: u16, message: String },
    /// The service answered with success, but not in a shape that is understood.
    ResponseDecode,
    /// One poll failed: with the status given, or without any answer.
    StatusFetch { status: Option<u16> },
}

/// The address of the run-creation endpoint.
pub open spec fn run_url_spec(organization: Seq<char>, project: Seq<char>, pipeline_id: u32) -> Seq<
    char,
> {
    "https://dev.azure.com/"@ + organization + "/"@ + project + "/_apis/pipelines/"@ + decimal(
        pipeline_id as nat,
    ) + "/runs?api-version=7.1-preview.1"@
}

/// The address at which the state of one run is read.
pub open spec fn status_url_spec(
    organization: Seq<char>,
    project: Seq<char>,
    pipeline_id: u32,
    run_id: u32,
) -> Seq<char> {
    "https://dev.azure.com/"@ + organization + "/"@ + project + "/_apis/pipelines/"@ + decimal(
        pipeline_id as nat,
    ) + "/runs/"@ + decimal(run_id as nat) + "?api-version=7.1-preview.1"@
}

fn pipelines_url(config: &Config) -> (url: String)
    ensures
        url@ == "https://dev.azure.com/"@ + config.organization@ + "/"@ + config.project@
            + "/_apis/pipelines/"@ + decimal(config.pipeline_id as nat),
{
    let mut url = String::from_str("https://dev.azure.com/");
    url.append(config.organization.as_str());
    url.append("/");
    url.append(config.project.as_str());
    url.append("/_apis/pipelines/");
    let id = decimal_text(config.pipeline_id);
    url.append(id.as_str());
    url
}

/// Spells the address to which a run request for `config`'s pipeline is sent.
pub fn pipeline_run_url(config: &Config) -> (url: String)
    ensures
        url@ == run_url_spec(config.organization@, config.project@, config.pipeline_id),
{
    let mut url = pipelines_url(config);
    url.append("/runs?api-version=7.1-preview.1");
    url
}

/// Spells the address at which the state of run `run_id` is read.
pub fn pipeline_status_url(config: &Config, run_id: u32) -> (url: String)
    ensures
        url@ == status_url_spec(
            config.organization@,
            config.project@,
            config.pipeline_id,
            run_id,
        ),
{
    let mut url = pipelines_url(config);
    url.append("/runs/");
    let run = decimal_text(run_id);
    url.append(run.as_str());
    url.append("?api-version=7.1-preview.1");
    url
}

/// The standard base64 encoding, with padding, of a text's UTF-8 bytes.
pub uninterp spec fn base64_standard(text: Seq<char>) -> Seq<char>;

/// Encodes `input` with `base64::encode`.
///
/// Trusted: the result is the standard padded base64 text of the bytes of
/// `input`, which depends on nothing but `input`. The call panics only where
/// the encoded length overflows `usize`, which no string in memory reaches.
#[verifier::external_body]
fn base64_encode(input: &str) -> (r: String)
    ensures
        r@ == base64_standard(input@),
{
    base64::encode(input)
}

/// What is encoded for the header: an empty user name, a colon, the credential.
pub open spec fn credential_pair_spec(credential: Seq<char>) -> Seq<char> {
    ":"@ + credential
}

/// The value of the authorization header for an encoded credential pair.
pub open spec fn basic_scheme_spec(encoded: Seq<char>) -> Seq<char> {
    "Basic "@ + encoded
}

/// The value of the authorization header for a credential.
pub open spec fn authorization_spec(credential: Seq<char>) -> Seq<char> {
    basic_scheme_spec(base64_standard(credential_pair_spec(credential)))
}

/// Joins an empty user name and the credential into the pair to encode.
pub fn credential_pair(credential: &str) -> (pair: String)
    ensures
        pair@ == credential_pair_spec(credential@),
{
    let mut pair = String::from_str(":");
    pair.append(credential);
    pair
}

/// Puts the scheme's name before an encoded credential pair.
pub fn basic_scheme(encoded: &str) -> (header: String)
    ensures
        header@ == basic_scheme_spec(encoded@),
{
    let mut header = String::from_str("Basic ");
    header.append(encoded);
    header
}

/// Builds the authorization header that every request carries.
pub fn authorization_header(credential: &str) -> (header: String)
    ensures
        header@ == authorization_spec(credential@),
{
    let pair = credential_pair(credential);
    let encoded = base64_encode(pair.as_str());
    basic_scheme(encoded.as_str())
}

/// Whether a status code reports success.
pub open spec fn is_success_status(status: u16) -> bool {
    200 <= status <= 299
}

/// Tells whether a status code reports success.
pub fn status_is_success(status: u16) -> (r: bool)
    ensures
        r == is_success_status(status),
{
    200 <= status && status <= 299
}

/// The message of a rejection whose answer held none that could be read.
pub open spec fn placeholder_message() -> Seq<char> {
    "no message in the response"@
}

/// Whether `outcome` is what the answer to a trigger means: the decoded
/// result on success, a decode error on success without one, and on every
/// other status a rejection with that status and the answer's message.
pub open spec fn is_trigger_outcome(
    status: u16,
    decoded: Option<RunTriggerResult>,
    message: Option<String>,
    outcome: Result<RunTriggerResult, PipelineError>,
) -> bool {
    if is_success_status(status) {
        match decoded {
            Some(result) => outcome == Ok::<RunTriggerResult, PipelineError>(result),
            None => outcome == Err::<RunTriggerResult, PipelineError>(
                PipelineError::ResponseDecode,
            ),
        }
    } else {
        &&& outcome matches Err(PipelineError::TriggerRejected { status: s, message: m })
        &&& s == status
        &&& m@ == match message {
            Some(text) => text@,
            None => placeholder_message(),
        }
    }
}

/// What the answer to a poll means: the decoded snapshot on success, a decode
/// error on success without one, and on every other status a fetch error
/// with that status.
pub open spec fn status_outcome(status: u16, decoded: Option<RunStatusSnapshot>) -> Result<
    RunStatusSnapshot,
    PipelineError,
> {
    if is_success_status(status) {
        match decoded {
            Some(snapshot) => Ok(snapshot),
            None => Err(PipelineError::ResponseDecode),
        }
    } else {
        Err(PipelineError::StatusFetch { status: Some(status) })
    }
}

/// Interprets the answer to a trigger from its status, the result decoded
/// from its body, if any, and the diagnostic message decoded from it, if any.
pub fn interpret_trigger_response(
    status: u16,
    decoded: Option<RunTriggerResult>,
    message: Option<String>,
) -> (outcome: Result<RunTriggerResult, PipelineError>)
    ensures
        is_trigger_outcome(status, decoded, message, outcome),
{
    if status_is_success(status) {
        match decoded {
            Some(result) => Ok(result),
            None => Err(PipelineError::ResponseDecode),
        }
    } else {
        let message = match message {
            Some(text) => text,
            None => String::from_str("no message in the response"),
        };
        Err(PipelineError::TriggerRejected { status, message })
    }
}

/// Interprets the answer to a poll from its status and the snapshot decoded
/// from its body, if any.
pub fn interpret_status_response(status: u16, decoded: Option<RunStatusSnapshot>) -> (outcome:
    Result<RunStatusSnapshot, PipelineError>)
    ensures
        outcome == status_outcome(status, decoded),
{
    if status_is_success(status) {
        match decoded {
            Some(snapshot) => Ok(snapshot),
            None => Err(PipelineError::ResponseDecode),
        }
    } else {
        Err(PipelineError::StatusFetch { status: Some(status) })
    }
}

/// Takes the credential as it was found under `variable`, and fails where
/// none was found, before anything is sent.
pub fn require_credential(variable: String, found: Option<String>) -> (r: Result<
    String,
    PipelineError,
>)
    ensures
        r == match found {
            Some(credential) => Ok::<String, PipelineError>(credential),
            None => Err(PipelineError::MissingCredential { variable }),
        },
{
    match found {
        Some(credential) => Ok(credential),
        None => Err(PipelineError::MissingCredential { variable }),
    }
}

} // verus!
