//! The governor's fatal conditions, each ending the process at one place.
use vstd::prelude::*;

verus! {

/// Why the governor cannot go on.
#[derive(Debug, Clone, Copy, PartialEq, Eq, Structural)]
pub enum GovernorError {
    /// The command line does not hold exactly one threshold in whole degrees.
    Configuration,
    /// The hardware's frequency floor or ceiling could not be read.
    Bounds,
    /// No temperature source could be read.
    Sampling,
    /// A CPU's frequency-ceiling control file could not be written.
    Actuation,
}

} // verus!
