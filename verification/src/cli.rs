//! What the command line gives.

use vstd::prelude::*;

verus! {

/// The arguments of the program.
#[derive(Debug)]
pub struct Cli {
    /// Path to the configuration file
    pub config_file: String,
}

} // verus!
