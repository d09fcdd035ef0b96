//! The command line: a search to run on startup.
use vstd::prelude::*;

verus! {

/// The arguments the program takes.
pub struct Cli {
    /// Search query to run on startup
    pub query: Option<String>,
    /// Whether the version was asked for.
    pub show_version: Option<bool>,
}

} // verus!
