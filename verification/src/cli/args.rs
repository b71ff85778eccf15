//! The arguments of the command-line program.

use vstd::prelude::*;

verus! {

/// The arguments of the command-line program.
#[derive(Debug, PartialEq, Eq)]
pub struct CliArgs {
    pub command: Commands,
}

/// The commands of the command-line program.
#[derive(Debug, PartialEq, Eq)]
pub enum Commands {
    /// Run the Station Module in the given JavaScript file.
    Run { file: String },
}

} // verus!
