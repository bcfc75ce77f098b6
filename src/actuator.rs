//! What is written to each logical CPU's frequency-ceiling control file.
use vstd::prelude::*;
use crate::decimal::{decimal_digits, push_decimal};

verus! {

/// The text that sets a ceiling of `freq`: its decimal digits and a newline.
pub open spec fn payload_text(freq: u64) -> Seq<u8> {
    decimal_digits(freq as nat).push(10)
}

/// The writes that apply one ceiling: `payload` goes to the control file of
/// each logical CPU numbered from 0 up to, and not including, `cpu_count`.
#[derive(Debug, Clone)]
pub struct ActuationPlan {
    pub cpu_count: usize,
    pub payload: Vec<u8>,
}

/// The text that sets a ceiling of `freq`.
pub fn frequency_payload(freq: u64) -> (r: Vec<u8>)
    ensures
        r@ == payload_text(freq),
{
    let mut out: Vec<u8> = Vec::new();
    push_decimal(freq, &mut out);
    out.push(10u8);
    assert(out@ =~= payload_text(freq));
    out
}

/// The writes that apply a ceiling of `freq` on a machine with `cpu_count`
/// logical CPUs.
pub fn plan_for(freq: u64, cpu_count: usize) -> (r: ActuationPlan)
    ensures
        r.cpu_count == cpu_count,
        r.payload@ == payload_text(freq),
{
    ActuationPlan { cpu_count, payload: frequency_payload(freq) }
}

/// The writes that apply a ceiling of `freq` to every logical CPU of this
/// machine, of which there is at least one.
pub fn plan_actuation(freq: u64) -> (r: ActuationPlan)
    ensures
        r.cpu_count >= 1,
        r.payload@ == payload_text(freq),
{
    plan_for(freq, logical_cpu_count())
}

/// Relies on `num_cpus::get`: the number of logical CPUs available to the
/// process, documented to be at least 1.
#[verifier::external_body]
fn logical_cpu_count() -> (r: usize)
    ensures
        r >= 1,
{
    num_cpus::get()
}

} // verus!
