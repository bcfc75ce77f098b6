//! The temperature: the hottest reading among the sensors present.
use vstd::prelude::*;
use crate::decimal::{decimal_value, parse_trimmed_u64, trim};
use crate::error::GovernorError;

verus! {

/// Sensors report thousandths of a degree.
pub const MILLIDEGREES_PER_DEGREE: u64 = 1000;

/// The whole degrees that one sensor's text reports, if it holds a number.
pub open spec fn reading_degrees(text: Seq<u8>) -> Option<u64> {
    match decimal_value(trim(text)) {
        Some(v) => Some((v / MILLIDEGREES_PER_DEGREE) as u64),
        None => None,
    }
}

/// The hottest of the readings, or `None` where there is none or one of them
/// is not a number.
pub open spec fn hottest(texts: Seq<Vec<u8>>) -> Option<u64>
    decreases texts.len(),
{
    if texts.len() == 0 {
        None
    } else {
        match reading_degrees(texts.last()@) {
            None => None,
            Some(d) => if texts.len() == 1 {
                Some(d)
            } else {
                match hottest(texts.drop_last()) {
                    None => None,
                    Some(m) => Some(if m < d { d } else { m }),
                }
            },
        }
    }
}

/// Converts one sensor's text, in thousandths of a degree, to whole degrees.
pub fn parse_reading(text: &[u8]) -> (r: Option<u64>)
    ensures
        r == reading_degrees(text@),
{
    match parse_trimmed_u64(text) {
        Some(v) => Some(v / MILLIDEGREES_PER_DEGREE),
        None => None,
    }
}

/// The temperature from the texts of the sensors that are present: the
/// hottest of their readings. Fails with `GovernorError::Sampling` where no
/// sensor is present or one holds no number: the governor never runs on a
/// guess.
pub fn sample_temperature(texts: &Vec<Vec<u8>>) -> (r: Result<u64, GovernorError>)
    ensures
        texts@.len() == 0 ==> r == Err::<u64, GovernorError>(GovernorError::Sampling),
        r == (match hottest(texts@) {
            Some(t) => Ok(t),
            None => Err(GovernorError::Sampling),
        }),
{
    let n = texts.len();
    if n == 0 {
        return Err(GovernorError::Sampling);
    }
    let mut hottest_so_far: u64 = 0;
    let mut i: usize = 0;
    while i < n
        invariant
            i <= n,
            n == texts@.len(),
            i > 0 ==> hottest(texts@.subrange(0, i as int)) == Some(hottest_so_far),
        decreases n - i,
    {
        let ghost seen = texts@.subrange(0, i + 1);
        assert(seen.drop_last() =~= texts@.subrange(0, i as int));
        match parse_reading(texts[i].as_slice()) {
            None => {
                proof {
                    lemma_failure_persists(texts@, i + 1);
                    assert(texts@.subrange(0, n as int) =~= texts@);
                }
                return Err(GovernorError::Sampling);
            },
            Some(d) => {
                if i == 0 || hottest_so_far < d {
                    hottest_so_far = d;
                }
            },
        }
        i = i + 1;
    }
    assert(texts@.subrange(0, n as int) =~= texts@);
    Ok(hottest_so_far)
}

/// Once a prefix of the texts holds one that is not a number, every longer
/// prefix does.
proof fn lemma_failure_persists(texts: Seq<Vec<u8>>, k: int)
    requires
        0 < k <= texts.len(),
        hottest(texts.subrange(0, k)) is None,
    ensures
        hottest(texts) is None,
    decreases texts.len() - k,
{
    if k < texts.len() {
        assert(texts.subrange(0, k + 1).drop_last() =~= texts.subrange(0, k));
        lemma_failure_persists(texts, k + 1);
    } else {
        assert(texts.subrange(0, k) =~= texts);
    }
}

} // verus!
