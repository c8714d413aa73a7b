//! Fear & Greed index readings as the public feed publishes them: the
//! index value and the Unix time, both as decimal text.

use vstd::prelude::*;
use crate::text::{parse_i64, parsed_i64};

verus! {

/// Why a reading cannot be stored.
#[derive(Clone, Copy, Debug, PartialEq, Eq, Structural)]
pub enum FngError {
    /// The value is not an `i32`.
    Value,
    /// The timestamp is not an `i64`.
    Timestamp,
}

/// The value is read first (an `i32`: an `i64` in range), then the
/// timestamp (an `i64`).
pub open spec fn spec_fng_reading(value: Seq<char>, timestamp: Seq<char>) -> Result<(i32, i64), FngError> {
    match parsed_i64(value) {
        Some(v) => if i32::MIN <= v <= i32::MAX {
            match parsed_i64(timestamp) {
                Some(t) => Ok((v as i32, t)),
                None => Err(FngError::Timestamp),
            }
        } else {
            Err(FngError::Value)
        },
        None => Err(FngError::Value),
    }
}

pub fn fng_reading(value: &str, timestamp: &str) -> (res: Result<(i32, i64), FngError>)
    ensures
        res == spec_fng_reading(value@, timestamp@),
{
    let v = match parse_i64(value) {
        Some(v) => v,
        None => return Err(FngError::Value),
    };
    if v < i32::MIN as i64 || v > i32::MAX as i64 {
        return Err(FngError::Value);
    }
    match parse_i64(timestamp) {
        Some(t) => Ok((v as i32, t)),
        None => Err(FngError::Timestamp),
    }
}

} // verus!
