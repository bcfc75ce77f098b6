//! The hardware's supported frequency range, read once at startup.
use vstd::prelude::*;
use crate::decimal::{decimal_value, parse_trimmed_u64, trim};
use crate::error::GovernorError;

verus! {

/// The lowest and highest frequency ceiling that the hardware supports, in kHz.
#[derive(Debug, Clone, Copy, PartialEq, Eq, Structural)]
pub struct FrequencyBounds {
    pub min: u64,
    pub max: u64,
}

impl FrequencyBounds {
    pub open spec fn wf(&self) -> bool {
        self.min <= self.max
    }

    /// Whether `freq` lies within the range.
    pub open spec fn holds(&self, freq: u64) -> bool {
        self.min <= freq <= self.max
    }

    /// The range as the two text files of the kernel describe it, if they
    /// hold numbers that form a range.
    pub open spec fn from_text_spec(min_text: Seq<u8>, max_text: Seq<u8>) -> Result<
        FrequencyBounds,
        GovernorError,
    > {
        match (decimal_value(trim(min_text)), decimal_value(trim(max_text))) {
            (Some(min), Some(max)) => if min <= max {
                Ok(FrequencyBounds { min, max })
            } else {
                Err(GovernorError::Bounds)
            },
            _ => Err(GovernorError::Bounds),
        }
    }

    /// Reads the range from the contents of the floor and ceiling files:
    /// base-10 numbers with whitespace allowed around them. Fails with
    /// `GovernorError::Bounds` where either is not a number or the floor lies
    /// above the ceiling.
    pub fn from_text(min_text: &[u8], max_text: &[u8]) -> (r: Result<FrequencyBounds, GovernorError>)
        ensures
            r == Self::from_text_spec(min_text@, max_text@),
            r is Ok ==> r->Ok_0.wf(),
    {
        let min = parse_trimmed_u64(min_text);
        let max = parse_trimmed_u64(max_text);
        match (min, max) {
            (Some(min), Some(max)) => if min <= max {
                Ok(FrequencyBounds { min, max })
            } else {
                Err(GovernorError::Bounds)
            },
            _ => Err(GovernorError::Bounds),
        }
    }
}

} // verus!
