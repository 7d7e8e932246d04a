//! The command line as plain values.

use crate::error::ReconError;
use vstd::prelude::*;
use vstd::string::*;

verus! {

/// The cloud environment a scan is aimed at.
#[derive(Debug, Clone, Copy, PartialEq, Eq, Structural)]
pub enum CloudTarget {
    Commercial,
    Gcc,
    GccHigh,
    Dod,
}

/// The arguments of one run.
#[derive(Debug, Clone)]
pub struct Cli {
    /// The target domain name for reconnaissance.
    pub domain: String,
    /// The target cloud environment.
    pub cloud: CloudTarget,
    /// Whether the report is wanted as JSON.
    pub json: bool,
}

impl Cli {
    /// A run needs a domain: an empty one is refused before any probe starts.
    pub fn validate(&self) -> (r: Result<(), ReconError>)
        ensures
            self.domain@.len() > 0 ==> r is Ok,
            self.domain@.len() == 0 ==> (r matches Err(ReconError::CliArgs(m)) && m@
                == "Domain argument is required"@),
    {
        if self.domain.as_str().is_empty() {
            Err(ReconError::cli_error(String::from_str("Domain argument is required")))
        } else {
            Ok(())
        }
    }
}

} // verus!
