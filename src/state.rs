//! The frequency ceiling in force, shared by the scheduled adjustments.
//!
//! An adjustment claims the cell when it is scheduled and keeps it through its
//! delay; one scheduled while the cell is claimed is dropped, and a later tick
//! schedules it again if it is still called for.
use vstd::prelude::*;
use crate::bounds::FrequencyBounds;
use crate::control::{adjusted, Adjustment};

verus! {

/// What a `FrequencyState` holds, as a plain value.
pub struct StateModel {
    pub bounds: FrequencyBounds,
    pub current: u64,
    pub claimed: bool,
}

impl StateModel {
    /// The bounds form a range and the ceiling in force lies within it.
    pub open spec fn wf(&self) -> bool {
        self.bounds.wf() && self.bounds.holds(self.current)
    }
}

/// A claim on the cell: the state after it, and whether it was granted.
pub open spec fn claim_step(m: StateModel) -> (StateModel, bool) {
    if m.claimed {
        (m, false)
    } else {
        (StateModel { claimed: true, ..m }, true)
    }
}

/// The state after the holder of the claim has applied `adjustment` and
/// given the claim up.
pub open spec fn complete_step(m: StateModel, adjustment: Adjustment) -> StateModel {
    StateModel { current: adjusted(m.current, adjustment, m.bounds), claimed: false, ..m }
}

/// The frequency ceiling in force, with the claim that at most one
/// adjustment holds at a time.
pub struct FrequencyState {
    bounds: FrequencyBounds,
    current: u64,
    claimed: bool,
}

impl View for FrequencyState {
    type V = StateModel;

    closed spec fn view(&self) -> StateModel {
        StateModel { bounds: self.bounds, current: self.current, claimed: self.claimed }
    }
}

impl FrequencyState {
    /// A cell that starts at the hardware's ceiling, unclaimed.
    pub fn new(bounds: FrequencyBounds) -> (r: FrequencyState)
        requires
            bounds.wf(),
        ensures
            r@ == (StateModel { bounds, current: bounds.max, claimed: false }),
            r@.wf(),
    {
        FrequencyState { bounds, current: bounds.max, claimed: false }
    }

    /// The ceiling in force.
    pub fn current(&self) -> (r: u64)
        ensures
            r == self@.current,
    {
        self.current
    }

    /// The hardware's range.
    pub fn bounds(&self) -> (r: FrequencyBounds)
        ensures
            r == self@.bounds,
    {
        self.bounds
    }

    /// Whether an adjustment holds the claim.
    pub fn is_claimed(&self) -> (r: bool)
        ensures
            r == self@.claimed,
    {
        self.claimed
    }

    /// Claims the cell for an adjustment being scheduled, without waiting:
    /// `false`, with nothing changed, where another adjustment holds it.
    pub fn try_claim(&mut self) -> (granted: bool)
        ensures
            (final(self)@, granted) == claim_step(old(self)@),
    {
        if self.claimed {
            false
        } else {
            self.claimed = true;
            true
        }
    }

    /// Applies `adjustment` for the holder of the claim, gives the claim up,
    /// and returns the new ceiling, which is to be written to every CPU.
    pub fn complete(&mut self, adjustment: Adjustment) -> (r: u64)
        requires
            old(self)@.wf(),
            old(self)@.claimed,
        ensures
            final(self)@ == complete_step(old(self)@, adjustment),
            final(self)@.wf(),
            r == final(self)@.current,
    {
        proof {
            crate::control::lemma_adjusted_within_bounds(self.current, adjustment, self.bounds);
        }
        self.current = adjustment.apply_to(self.current, &self.bounds);
        self.claimed = false;
        self.current
    }
}

/// Claiming and completing keep the ceiling within the bounds: after any
/// completed adjustment the floor lies at or under it and the hardware's
/// ceiling at or over it.
pub proof fn lemma_steps_keep_bounds(m: StateModel, adjustment: Adjustment)
    requires
        m.wf(),
    ensures
        claim_step(m).0.wf(),
        complete_step(m, adjustment).wf(),
        complete_step(m, adjustment).bounds.min <= complete_step(m, adjustment).current
            <= complete_step(m, adjustment).bounds.max,
{
    crate::control::lemma_adjusted_within_bounds(m.current, adjustment, m.bounds);
}

/// Of two decreases scheduled on an unclaimed cell before either completes,
/// the first is granted the claim and the second dropped, and the ceiling
/// moves as for one decrease alone.
pub proof fn lemma_concurrent_decreases_apply_once(
    m: StateModel,
    temperature: u64,
    threshold: u64,
)
    requires
        m.wf(),
        !m.claimed,
    ensures
        ({
            let (after_first, first) = claim_step(m);
            let (after_second, second) = claim_step(after_first);
            let done = complete_step(
                after_second,
                Adjustment::Decrease { temperature, threshold },
            );
            &&& first
            &&& !second
            &&& after_second == after_first
            &&& done.current == crate::control::decreased(m.current, temperature, threshold, m.bounds)
            &&& !done.claimed
        }),
{
}

} // verus!
