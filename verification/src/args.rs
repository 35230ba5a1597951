//! The command-line options the application accepts. Parsing the process
//! arguments belongs to the surrounding application; this module owns the
//! parsed values.

use vstd::prelude::*;

verus! {

/// The parsed command-line options: whether debug output was requested.
#[derive(Debug, Clone, Copy, PartialEq, Eq, Structural)]
pub struct Args {
    pub debug: bool,
}

} // verus!
