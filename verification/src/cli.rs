//! Command-line options.
//!
//! The argument parser itself is an external adapter; this is the parsed
//! shape the rest of the program consumes.

use vstd::prelude::*;

verus! {

/// A cozy crossplatform music player.
#[derive(Clone, Debug, PartialEq, Eq)]
pub struct CliOptions {
    /// First positional argument: the input file.
    pub input: Option<String>,
    /// Run without a graphical interface.
    pub no_gui: bool,
}

} // verus!
