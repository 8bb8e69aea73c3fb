//! The lines that tell the caller what happened.

use vstd::prelude::*;
use vstd::string::*;
use crate::client::{PipelineError, RunTriggerResult};
use crate::orchestrator::Report;
use crate::request::MalformedParametersError;
use crate::text::{decimal, decimal_text, signed_decimal, signed_decimal_text};

verus! {

/// The line that tells of a failed poll.
pub open spec fn poll_failure_spec(status: Option<u16>) -> Seq<char> {
    match status {
        Some(code) => "Failed to retrieve pipeline status: "@ + decimal(code as nat),
        None => "Failed to retrieve pipeline status: no response"@,
    }
}

/// Writes the line that tells of a failed poll.
pub fn poll_failure_line(status: Option<u16>) -> (line: String)
    ensures
        line@ == poll_failure_spec(status),
{
    match status {
        Some(code) => {
            let mut line = String::from_str("Failed to retrieve pipeline status: ");
            let digits = decimal_text(code as u32);
            line.append(digits.as_str());
            line
        },
        None => String::from_str("Failed to retrieve pipeline status: no response"),
    }
}

impl RunTriggerResult {
    /// The line that tells of the created run.
    pub open spec fn announcement_spec(&self) -> Seq<char> {
        "Pipeline ["@ + self.pipeline_name@ + "] with id ["@ + signed_decimal(
            self.pipeline_id as int,
        ) + "] triggered successfully, run id = ["@ + decimal(self.run_id as nat) + "]"@
    }

    /// Writes the line that tells of the created run: the pipeline's name
    /// and identifier, and the run's identifier.
    pub fn announcement(&self) -> (line: String)
        ensures
            line@ == self.announcement_spec(),
    {
        let mut line = String::from_str("Pipeline [");
        line.append(self.pipeline_name.as_str());
        line.append("] with id [");
        let pipeline = signed_decimal_text(self.pipeline_id);
        line.append(pipeline.as_str());
        line.append("] triggered successfully, run id = [");
        let run = decimal_text(self.run_id);
        line.append(run.as_str());
        line.append("]");
        line
    }
}

impl Report {
    /// The line of one report.
    pub open spec fn line_spec(&self) -> Seq<char> {
        match *self {
            Report::Progress(tag) => "Pipeline status: "@ + tag@,
            Report::Finished(tag) => "Pipeline has finished with status: "@ + tag@,
            Report::PollFailed(status) => poll_failure_spec(status),
            Report::Cancelled => "Watch cancelled before the pipeline finished"@,
        }
    }

    /// Writes the line of one report.
    pub fn line(&self) -> (line: String)
        ensures
            line@ == self.line_spec(),
    {
        match self {
            Report::Progress(tag) => {
                let mut line = String::from_str("Pipeline status: ");
                line.append(tag.as_str());
                line
            },
            Report::Finished(tag) => {
                let mut line = String::from_str("Pipeline has finished with status: ");
                line.append(tag.as_str());
                line
            },
            Report::PollFailed(status) => poll_failure_line(*status),
            Report::Cancelled => String::from_str("Watch cancelled before the pipeline finished"),
        }
    }
}

impl PipelineError {
    /// The message of an error.
    pub open spec fn message_spec(&self) -> Seq<char> {
        match *self {
            PipelineError::MissingCredential { variable } => "Please set the "@ + variable@
                + " environment variable with your Azure DevOps Personal Access Token."@,
            PipelineError::MalformedParameters(MalformedParametersError::InvalidJson) =>
                "Failed to parse JSON: the template parameters are not valid JSON"@,
            PipelineError::MalformedParameters(MalformedParametersError::NotAnObject) =>
                "Invalid JSON object."@,
            PipelineError::TriggerRejected { status, message } =>
                "Failed to trigger the pipeline run, status code: "@ + decimal(status as nat)
                    + " \nMessage: "@ + message@,
            PipelineError::ResponseDecode =>
                "The service answered with success, but its response could not be decoded"@,
            PipelineError::StatusFetch { status } => poll_failure_spec(status),
        }
    }

    /// Writes the message of an error. The credential is no part of any.
    pub fn message(&self) -> (line: String)
        ensures
            line@ == self.message_spec(),
    {
        match self {
            PipelineError::MissingCredential { variable } => {
                let mut line = String::from_str("Please set the ");
                line.append(variable.as_str());
                line.append(
                    " environment variable with your Azure DevOps Personal Access Token.",
                );
                line
            },
            PipelineError::MalformedParameters(MalformedParametersError::InvalidJson) => {
                String::from_str("Failed to parse JSON: the template parameters are not valid JSON")
            },
            PipelineError::MalformedParameters(MalformedParametersError::NotAnObject) => {
                String::from_str("Invalid JSON object.")
            },
            PipelineError::TriggerRejected { status, message } => {
                let mut line = String::from_str(
                    "Failed to trigger the pipeline run, status code: ",
                );
                let digits = decimal_text(*status as u32);
                line.append(digits.as_str());
                line.append(" \nMessage: ");
                line.append(message.as_str());
                line
            },
            PipelineError::ResponseDecode => {
                String::from_str(
                    "The service answered with success, but its response could not be decoded",
                )
            },
            PipelineError::StatusFetch { status } => poll_failure_line(*status),
        }
    }
}

} // verus!
