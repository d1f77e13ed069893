//! Command-line arguments.

use vstd::prelude::*;

verus! {

/// The generator's command-line arguments.
#[derive(Clone, Debug, PartialEq, Eq)]
pub struct Args {
    /// How verbose the logs are: one level per `-v`.
    pub verbosity: u8,
    /// Path to the configuration file, if one is named.
    pub config: Option<String>,
}

} // verus!
