//! The command line: one argument, the temperature threshold in whole degrees.
use vstd::prelude::*;
use vstd::utf8::encode_utf8;
use crate::decimal::{decimal_value, parse_u64};
use crate::error::GovernorError;

verus! {

/// The threshold that the arguments after the program's name give, if they
/// are exactly one base-10 number.
pub open spec fn threshold_of(args: Seq<String>) -> Result<u64, GovernorError> {
    if args.len() != 1 {
        Err(GovernorError::Configuration)
    } else {
        match decimal_value(encode_utf8(args[0]@)) {
            Some(t) => Ok(t),
            None => Err(GovernorError::Configuration),
        }
    }
}

/// Reads the threshold from the arguments that follow the program's name.
/// Fails with `GovernorError::Configuration` where there is not exactly one,
/// or it is not a number of whole degrees.
pub fn parse_threshold(args: &Vec<String>) -> (r: Result<u64, GovernorError>)
    ensures
        r == threshold_of(args@),
{
    if args.len() != 1 {
        return Err(GovernorError::Configuration);
    }
    match parse_u64(args[0].as_str().as_bytes()) {
        Some(t) => Ok(t),
        None => Err(GovernorError::Configuration),
    }
}

} // verus!
