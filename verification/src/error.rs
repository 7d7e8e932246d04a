//! The one error type of the library.

use vstd::prelude::*;
use vstd::string::*;

verus! {

/// What can go wrong in a run. Errors that come from the network, the
/// resolver or a decoder are carried as the text that describes them.
#[derive(Debug, Clone)]
pub enum ReconError {
    /// The configuration could not be read or is incomplete.
    Config(String),
    /// A request did not get an answer, or its body could not be read.
    Network(String),
    /// The resolver failed.
    Dns(String),
    /// A JSON body could not be decoded.
    JsonParse(String),
    /// Reading or writing failed.
    Io(String),
    /// An endpoint is not a valid URL.
    UrlParse(String),
    /// The command line was refused.
    CliArgs(String),
    /// A named check did not run to its end.
    CheckFailed { check_name: String, details: String },
    /// A resource does not exist for the target.
    NotFound { resource_type: String, target: String },
    /// A service answered with a status that carries no finding.
    UnexpectedApiResponse { service: String, status: u16, body: String },
    /// An answer lacks something that the check needs.
    MissingData(String),
    /// Anything else.
    Other(String),
}

impl ReconError {
    /// The failure of the check `check_name`, with what is known of it.
    pub fn check_failed(check_name: &str, details: String) -> (r: Self)
        ensures
            r matches ReconError::CheckFailed { check_name: n, details: d } && n@ == check_name@
                && d == details,
    {
        ReconError::CheckFailed { check_name: String::from_str(check_name), details }
    }

    /// The absence of a `resource_type` for `target`.
    pub fn not_found(resource_type: &str, target: &str) -> (r: Self)
        ensures
            r matches ReconError::NotFound { resource_type: k, target: t } && k@
                == resource_type@ && t@ == target@,
    {
        ReconError::NotFound {
            resource_type: String::from_str(resource_type),
            target: String::from_str(target),
        }
    }

    /// A refusal of the command line.
    pub fn cli_error(message: String) -> (r: Self)
        ensures
            r == ReconError::CliArgs(message),
    {
        ReconError::CliArgs(message)
    }
}

} // verus!
