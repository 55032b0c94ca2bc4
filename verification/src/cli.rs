//! What the command line gives a run.

use vstd::prelude::*;
use crate::logging::LoggingSettings;

verus! {

/// The arguments of a run.
#[derive(Debug, Clone, PartialEq, Eq)]
pub struct Cli {
    /// Delete for good. Without it the run only lists what it would delete.
    pub force_delete: bool,
    /// A single level such as `info`, or a list such as
    /// `off,sanitarr=debug,reqwest=info`.
    pub log_level: LoggingSettings,
    /// Where the configuration file lies.
    pub config: String,
}

} // verus!
