//! Scalar generators: booleans, characters, and bounded integers.
//!
//! Each integer generator takes an optional `start` and `end`, both
//! inclusive. A missing side defaults to the type's minimum or maximum, and
//! with neither side given any value of the type may come out.
use crate::error::TeraRandError;
use crate::range::{bound_or, sample_i32, sample_i64, sample_u32, sample_u64};
use vstd::prelude::*;

verus! {

/// A random `bool`; both values may come out.
pub fn random_bool() -> bool {
    rand::random::<bool>()
}

/// A random `char`, any Unicode scalar value.
pub fn random_char() -> char {
    rand::random::<char>()
}

/// A random `u32` in `[start, end]`, a missing side being `u32::MIN` or `u32::MAX`.
pub fn random_uint32(start: Option<u32>, end: Option<u32>) -> (r: Result<u32, TeraRandError>)
    ensures
        r is Ok <==> bound_or(start, u32::MIN) <= bound_or(end, u32::MAX),
        r is Err ==> r == Err::<u32, TeraRandError>(TeraRandError::InvalidRange),
        r matches Ok(v) ==> bound_or(start, u32::MIN) <= v <= bound_or(end, u32::MAX),
{
    sample_u32(start, end, u32::MIN, u32::MAX)
}

/// A random `u64` in `[start, end]`, a missing side being `u64::MIN` or `u64::MAX`.
pub fn random_uint64(start: Option<u64>, end: Option<u64>) -> (r: Result<u64, TeraRandError>)
    ensures
        r is Ok <==> bound_or(start, u64::MIN) <= bound_or(end, u64::MAX),
        r is Err ==> r == Err::<u64, TeraRandError>(TeraRandError::InvalidRange),
        r matches Ok(v) ==> bound_or(start, u64::MIN) <= v <= bound_or(end, u64::MAX),
{
    sample_u64(start, end, u64::MIN, u64::MAX)
}

/// A random `i32` in `[start, end]`, a missing side being `i32::MIN` or `i32::MAX`.
pub fn random_int32(start: Option<i32>, end: Option<i32>) -> (r: Result<i32, TeraRandError>)
    ensures
        r is Ok <==> bound_or(start, i32::MIN) <= bound_or(end, i32::MAX),
        r is Err ==> r == Err::<i32, TeraRandError>(TeraRandError::InvalidRange),
        r matches Ok(v) ==> bound_or(start, i32::MIN) <= v <= bound_or(end, i32::MAX),
{
    sample_i32(start, end, i32::MIN, i32::MAX)
}

/// A random `i64` in `[start, end]`, a missing side being `i64::MIN` or `i64::MAX`.
pub fn random_int64(start: Option<i64>, end: Option<i64>) -> (r: Result<i64, TeraRandError>)
    ensures
        r is Ok <==> bound_or(start, i64::MIN) <= bound_or(end, i64::MAX),
        r is Err ==> r == Err::<i64, TeraRandError>(TeraRandError::InvalidRange),
        r matches Ok(v) ==> bound_or(start, i64::MIN) <= v <= bound_or(end, i64::MAX),
{
    sample_i64(start, end, i64::MIN, i64::MAX)
}

} // verus!
