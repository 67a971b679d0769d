//! Sampling one value from an optional closed range.
//!
//! A bound pair `(lower, upper)` may have either side missing. A missing side
//! is filled from the caller's default for that side. When both sides are
//! missing the value is drawn from the whole domain of the type, without
//! looking at the defaults.
use crate::error::TeraRandError;
use crate::rng::{draw_i32, draw_i64, draw_u128, draw_u32, draw_u64};
use vstd::prelude::*;

verus! {

/// The bound that applies on one side: the given one, else the default.
pub open spec fn bound_or<T>(bound: Option<T>, default: T) -> T {
    match bound {
        Some(b) => b,
        None => default,
    }
}

/// Neither side of the bound pair is given.
pub open spec fn unbounded<T>(lower: Option<T>, upper: Option<T>) -> bool {
    lower is None && upper is None
}

/// The closed interval to draw from, or `None` for the whole domain.
pub fn fill_bounds<T>(lower: Option<T>, upper: Option<T>, default_lower: T, default_upper: T) -> (r:
    Option<(T, T)>)
    ensures
        r is None <==> unbounded(lower, upper),
        r matches Some(b) ==> b == (bound_or(lower, default_lower), bound_or(upper, default_upper)),
{
    match (lower, upper) {
        (None, None) => None,
        (Some(l), Some(u)) => Some((l, u)),
        (Some(l), None) => Some((l, default_upper)),
        (None, Some(u)) => Some((default_lower, u)),
    }
}

/// Draws a `u32` from `[lower, upper]`, a missing side filled from its default.
/// With both sides missing, any `u32` may come out.
pub fn sample_u32(lower: Option<u32>, upper: Option<u32>, default_lower: u32, default_upper: u32) -> (r:
    Result<u32, TeraRandError>)
    ensures
        r is Ok <==> unbounded(lower, upper) || bound_or(lower, default_lower) <= bound_or(
            upper,
            default_upper,
        ),
        r is Err ==> r == Err::<u32, TeraRandError>(TeraRandError::InvalidRange),
        r matches Ok(v) ==> unbounded(lower, upper) || bound_or(lower, default_lower) <= v
            <= bound_or(upper, default_upper),
{
    match fill_bounds(lower, upper, default_lower, default_upper) {
        None => Ok(rand::random::<u32>()),
        Some((low, high)) => {
            if low <= high {
                Ok(draw_u32(low, high))
            } else {
                Err(TeraRandError::InvalidRange)
            }
        },
    }
}

/// Draws a `u64` from `[lower, upper]`, a missing side filled from its default.
/// With both sides missing, any `u64` may come out.
pub fn sample_u64(lower: Option<u64>, upper: Option<u64>, default_lower: u64, default_upper: u64) -> (r:
    Result<u64, TeraRandError>)
    ensures
        r is Ok <==> unbounded(lower, upper) || bound_or(lower, default_lower) <= bound_or(
            upper,
            default_upper,
        ),
        r is Err ==> r == Err::<u64, TeraRandError>(TeraRandError::InvalidRange),
        r matches Ok(v) ==> unbounded(lower, upper) || bound_or(lower, default_lower) <= v
            <= bound_or(upper, default_upper),
{
    match fill_bounds(lower, upper, default_lower, default_upper) {
        None => Ok(rand::random::<u64>()),
        Some((low, high)) => {
            if low <= high {
                Ok(draw_u64(low, high))
            } else {
                Err(TeraRandError::InvalidRange)
            }
        },
    }
}

/// Draws a `i32` from `[lower, upper]`, a missing side filled from its default.
/// With both sides missing, any `i32` may come out.
pub fn sample_i32(lower: Option<i32>, upper: Option<i32>, default_lower: i32, default_upper: i32) -> (r:
    Result<i32, TeraRandError>)
    ensures
        r is Ok <==> unbounded(lower, upper) || bound_or(lower, default_lower) <= bound_or(
            upper,
            default_upper,
        ),
        r is Err ==> r == Err::<i32, TeraRandError>(TeraRandError::InvalidRange),
        r matches Ok(v) ==> unbounded(lower, upper) || bound_or(lower, default_lower) <= v
            <= bound_or(upper, default_upper),
{
    match fill_bounds(lower, upper, default_lower, default_upper) {
        None => Ok(rand::random::<i32>()),
        Some((low, high)) => {
            if low <= high {
                Ok(draw_i32(low, high))
            } else {
                Err(TeraRandError::InvalidRange)
            }
        },
    }
}

/// Draws a `i64` from `[lower, upper]`, a missing side filled from its default.
/// With both sides missing, any `i64` may come out.
pub fn sample_i64(lower: Option<i64>, upper: Option<i64>, default_lower: i64, default_upper: i64) -> (r:
    Result<i64, TeraRandError>)
    ensures
        r is Ok <==> unbounded(lower, upper) || bound_or(lower, default_lower) <= bound_or(
            upper,
            default_upper,
        ),
        r is Err ==> r == Err::<i64, TeraRandError>(TeraRandError::InvalidRange),
        r matches Ok(v) ==> unbounded(lower, upper) || bound_or(lower, default_lower) <= v
            <= bound_or(upper, default_upper),
{
    match fill_bounds(lower, upper, default_lower, default_upper) {
        None => Ok(rand::random::<i64>()),
        Some((low, high)) => {
            if low <= high {
                Ok(draw_i64(low, high))
            } else {
                Err(TeraRandError::InvalidRange)
            }
        },
    }
}

/// Draws a `u128` from `[lower, upper]`, a missing side filled from its default.
/// With both sides missing, any `u128` may come out.
pub fn sample_u128(lower: Option<u128>, upper: Option<u128>, default_lower: u128, default_upper: u128) -> (r:
    Result<u128, TeraRandError>)
    ensures
        r is Ok <==> unbounded(lower, upper) || bound_or(lower, default_lower) <= bound_or(
            upper,
            default_upper,
        ),
        r is Err ==> r == Err::<u128, TeraRandError>(TeraRandError::InvalidRange),
        r matches Ok(v) ==> unbounded(lower, upper) || bound_or(lower, default_lower) <= v
            <= bound_or(upper, default_upper),
{
    match fill_bounds(lower, upper, default_lower, default_upper) {
        None => Ok(rand::random::<u128>()),
        Some((low, high)) => {
            if low <= high {
                Ok(draw_u128(low, high))
            } else {
                Err(TeraRandError::InvalidRange)
            }
        },
    }
}

} // verus!
