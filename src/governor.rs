//! One tick of the control loop: sample, then decide.
use vstd::prelude::*;
use crate::bounds::FrequencyBounds;
use crate::control::{decide, decision, Adjustment};
use crate::error::GovernorError;
use crate::sensor::{hottest, sample_temperature};

verus! {

/// What a tick found: the temperature, and the adjustment to schedule, if any.
#[derive(Debug, Clone, Copy, PartialEq, Eq, Structural)]
pub struct TickOutcome {
    pub temperature: u64,
    pub adjustment: Option<Adjustment>,
}

/// Samples the temperature from the texts of the sensors present and decides
/// against `threshold` and the ceiling `current` in force. Fails with
/// `GovernorError::Sampling` where the sensors give no temperature.
pub fn tick(texts: &Vec<Vec<u8>>, threshold: u64, current: u64, bounds: &FrequencyBounds) -> (r: Result<
    TickOutcome,
    GovernorError,
>)
    ensures
        r == (match hottest(texts@) {
            Some(t) => Ok(
                TickOutcome { temperature: t, adjustment: decision(t, threshold, current, *bounds) },
            ),
            None => Err(GovernorError::Sampling),
        }),
{
    match sample_temperature(texts) {
        Ok(temperature) => Ok(
            TickOutcome {
                temperature,
                adjustment: decide(temperature, threshold, current, bounds),
            },
        ),
        Err(e) => Err(e),
    }
}

} // verus!
