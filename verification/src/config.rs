//! What one invocation is asked to do, and the check of its numeric argument.

use vstd::prelude::*;
use vstd::string::*;
use crate::text::{parse_u32, parse_u32_spec};

verus! {

/// The input of one invocation. It is read, never changed.
#[derive(Clone, Debug, PartialEq, Eq)]
pub struct Config {
    pub organization: String,
    pub project: String,
    pub pipeline_id: u32,
    pub template_parameters: String,
    pub watch: bool,
}

/// The message with which a text that is no 32-bit unsigned number is refused.
pub open spec fn invalid_u32_message() -> Seq<char> {
    "Invalid u32 value"@
}

/// Accepts `value` where it denotes a 32-bit unsigned number, and refuses it
/// with a fixed message where it does not.
pub fn is_valid_u32(value: String) -> (r: Result<(), String>)
    ensures
        r is Ok <==> parse_u32_spec(value@) is Some,
        r matches Err(message) ==> message@ == invalid_u32_message(),
{
    match parse_u32(value.as_str()) {
        Some(_) => Ok(()),
        None => Err(String::from_str("Invalid u32 value")),
    }
}

impl Config {
    /// Makes the configuration from the arguments as they were typed. The
    /// pipeline identifier must denote a 32-bit unsigned number; template
    /// parameters that were not given are the empty text.
    pub fn from_arguments(
        organization: &str,
        project: &str,
        pipeline_id: &str,
        template_parameters: Option<&str>,
        watch: bool,
    ) -> (r: Result<Config, String>)
        ensures
            match parse_u32_spec(pipeline_id@) {
                Some(id) => {
                    &&& r matches Ok(config)
                    &&& config.organization@ == organization@
                    &&& config.project@ == project@
                    &&& config.pipeline_id == id
                    &&& config.template_parameters@ == match template_parameters {
                        Some(text) => text@,
                        None => Seq::<char>::empty(),
                    }
                    &&& config.watch == watch
                },
                None => r matches Err(message) && message@ == invalid_u32_message(),
            },
    {
        match parse_u32(pipeline_id) {
            Some(id) => {
                let template_parameters = match template_parameters {
                    Some(text) => String::from_str(text),
                    None => String::new(),
                };
                Ok(
                    Config {
                        organization: String::from_str(organization),
                        project: String::from_str(project),
                        pipeline_id: id,
                        template_parameters,
                        watch,
                    },
                )
            },
            None => Err(String::from_str("Invalid u32 value")),
        }
    }
}

} // verus!
