//! The control law: when to adjust the frequency ceiling, and by how much.
use vstd::prelude::*;
use crate::bounds::FrequencyBounds;

verus! {

/// How much one adjustment moves the ceiling: 100 MHz, in kHz.
pub const STEP_FREQ: u64 = 100000;

/// Width of the band under the threshold in which the ceiling is never raised.
pub const HYSTERESIS_DEGREES: u64 = 5;

/// One extra step of decrease for each this many degrees of overshoot.
pub const SPIKE_DIVISOR: u64 = 4;

/// Pause between two temperature samples.
pub const SAMPLE_INTERVAL_MILLIS: u64 = 500;

/// Latency of a decrease, counted from its scheduling.
pub const DECREASE_DELAY_MILLIS: u64 = 100;

/// Latency of an increase, counted from its scheduling.
pub const INCREASE_DELAY_MILLIS: u64 = 1000;

/// An adjustment of the frequency ceiling that a tick schedules.
#[derive(Debug, Clone, Copy, PartialEq, Eq, Structural)]
pub enum Adjustment {
    /// Lower the ceiling, in view of the temperature sampled when the
    /// adjustment was scheduled.
    Decrease { temperature: u64, threshold: u64 },
    /// Raise the ceiling by one step.
    Increase,
}

/// The extra steps of decrease that an overshoot of the threshold calls for:
/// a quarter of the overshoot in degrees, rounded down.
pub open spec fn spike_steps(temperature: u64, threshold: u64) -> nat {
    if temperature > threshold {
        ((temperature - threshold) / (SPIKE_DIVISOR as int)) as nat
    } else {
        0
    }
}

/// The ceiling after a decrease: one step plus the spike steps below
/// `current`, but never under the floor.
pub open spec fn decreased(current: u64, temperature: u64, threshold: u64, bounds: FrequencyBounds) -> u64 {
    let target = current - STEP_FREQ * (1 + spike_steps(temperature, threshold));
    if target < bounds.min {
        bounds.min
    } else {
        target as u64
    }
}

/// The ceiling after an increase: one step above `current`, but never over
/// the hardware's ceiling.
pub open spec fn increased(current: u64, bounds: FrequencyBounds) -> u64 {
    if current + STEP_FREQ > bounds.max {
        bounds.max
    } else {
        (current + STEP_FREQ) as u64
    }
}

/// The ceiling after `adjustment` has been applied to `current`.
pub open spec fn adjusted(current: u64, adjustment: Adjustment, bounds: FrequencyBounds) -> u64 {
    match adjustment {
        Adjustment::Decrease { temperature, threshold } => decreased(
            current,
            temperature,
            threshold,
            bounds,
        ),
        Adjustment::Increase => increased(current, bounds),
    }
}

/// What a tick decides: a decrease when the temperature is over the threshold
/// and the ceiling above the floor; an increase when the temperature is more
/// than the hysteresis band under the threshold and the ceiling under the
/// hardware's ceiling; otherwise nothing.
pub open spec fn decision(temperature: u64, threshold: u64, current: u64, bounds: FrequencyBounds) -> Option<Adjustment> {
    if temperature > threshold && current > bounds.min {
        Some(Adjustment::Decrease { temperature, threshold })
    } else if temperature + HYSTERESIS_DEGREES < threshold && current < bounds.max {
        Some(Adjustment::Increase)
    } else {
        None
    }
}

/// Decides what one tick schedules, from the sampled temperature and the
/// ceiling currently applied; `None` holds the ceiling as it is.
pub fn decide(temperature: u64, threshold: u64, current: u64, bounds: &FrequencyBounds) -> (r: Option<Adjustment>)
    ensures
        r == decision(temperature, threshold, current, *bounds),
{
    if temperature > threshold && current > bounds.min {
        Some(Adjustment::Decrease { temperature, threshold })
    } else if temperature < threshold && threshold - temperature > HYSTERESIS_DEGREES && current < bounds.max {
        Some(Adjustment::Increase)
    } else {
        None
    }
}

/// The ceiling after a decrease scheduled at `temperature`.
pub fn decreased_frequency(current: u64, temperature: u64, threshold: u64, bounds: &FrequencyBounds) -> (r: u64)
    ensures
        r == decreased(current, temperature, threshold, *bounds),
{
    let spike: u64 = if temperature > threshold {
        (temperature - threshold) / SPIKE_DIVISOR
    } else {
        0
    };
    assert(spike == spike_steps(temperature, threshold));
    let whole_steps = current / STEP_FREQ;
    if spike >= whole_steps {
        assert(STEP_FREQ * (1 + spike) > current) by (nonlinear_arith)
            requires
                spike >= whole_steps,
                whole_steps == current / STEP_FREQ,
                STEP_FREQ == 100000,
        ;
        return bounds.min;
    }
    assert(STEP_FREQ * (1 + spike) <= current) by (nonlinear_arith)
        requires
            spike < whole_steps,
            whole_steps == current / STEP_FREQ,
            STEP_FREQ == 100000,
    ;
    let target = current - STEP_FREQ * (1 + spike);
    if target < bounds.min {
        bounds.min
    } else {
        target
    }
}

/// The ceiling after an increase.
pub fn increased_frequency(current: u64, bounds: &FrequencyBounds) -> (r: u64)
    ensures
        r == increased(current, *bounds),
{
    if current >= bounds.max || bounds.max - current <= STEP_FREQ {
        bounds.max
    } else {
        current + STEP_FREQ
    }
}

impl Adjustment {
    /// The ceiling after this adjustment has been applied to `current`.
    pub fn apply_to(&self, current: u64, bounds: &FrequencyBounds) -> (r: u64)
        ensures
            r == adjusted(current, *self, *bounds),
    {
        match *self {
            Adjustment::Decrease { temperature, threshold } => decreased_frequency(
                current,
                temperature,
                threshold,
                bounds,
            ),
            Adjustment::Increase => increased_frequency(current, bounds),
        }
    }

    /// How long the adjustment waits before it is applied: a decrease is
    /// fast, an increase slow.
    pub fn delay_millis(&self) -> (r: u64)
        ensures
            r == (match *self {
                Adjustment::Decrease { .. } => DECREASE_DELAY_MILLIS,
                Adjustment::Increase => INCREASE_DELAY_MILLIS,
            }),
    {
        match *self {
            Adjustment::Decrease { .. } => DECREASE_DELAY_MILLIS,
            Adjustment::Increase => INCREASE_DELAY_MILLIS,
        }
    }
}

/// Every adjustment leaves a ceiling that lay within the bounds within them.
pub proof fn lemma_adjusted_within_bounds(current: u64, adjustment: Adjustment, bounds: FrequencyBounds)
    requires
        bounds.wf(),
        bounds.holds(current),
    ensures
        bounds.holds(adjusted(current, adjustment, bounds)),
{
}

/// A decrease never raises the ceiling, and an increase never lowers it.
pub proof fn lemma_adjustment_direction(current: u64, temperature: u64, threshold: u64, bounds: FrequencyBounds)
    requires
        bounds.wf(),
        bounds.holds(current),
    ensures
        decreased(current, temperature, threshold, bounds) <= current,
        increased(current, bounds) >= current,
{
}

/// At the floor, a decrease leaves the ceiling at the floor.
pub proof fn lemma_floor_is_fixed(temperature: u64, threshold: u64, bounds: FrequencyBounds)
    ensures
        decreased(bounds.min, temperature, threshold, bounds) == bounds.min,
{
}

/// At the hardware's ceiling, an increase leaves the ceiling there.
pub proof fn lemma_ceiling_is_fixed(bounds: FrequencyBounds)
    requires
        bounds.wf(),
    ensures
        increased(bounds.max, bounds) == bounds.max,
{
}

/// No adjustment is scheduled while the temperature lies in the dead band,
/// from the hysteresis width under the threshold up to the threshold itself.
pub proof fn lemma_dead_band_holds(temperature: u64, threshold: u64, current: u64, bounds: FrequencyBounds)
    requires
        threshold - HYSTERESIS_DEGREES <= temperature <= threshold,
    ensures
        decision(temperature, threshold, current, bounds) is None,
{
}

} // verus!
