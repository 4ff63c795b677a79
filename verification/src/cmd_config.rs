//! Command-line configuration: the parsed flags a program runs with.
//! Reading the command line is the caller's part.

use vstd::prelude::*;

verus! {

/// The command-line configuration.
#[derive(Debug, Clone, Copy, PartialEq, Eq, Structural)]
pub struct Config {
    /// Whether debug mode is on.
    pub debug: bool,
}

impl Config {
    /// Whether debug mode is on.
    pub fn is_debug(&self) -> (r: bool)
        ensures
            r == self.debug,
    {
        self.debug
    }
}

} // verus!
