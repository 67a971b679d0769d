use rand::distributions::DistString;
use rand::Rng;
use vstd::prelude::*;

verus! {

/// Relies on `rand::random`, which draws from the `Standard` distribution of `T`, which for the
/// integer types, `bool` and `char` covers every value of the type. Nothing
/// more can be said of a random value than its type already says.
pub assume_specification<T>[ rand::random::<T> ]() -> (r: T)
    where
        rand::distributions::Standard: rand::distributions::Distribution<T>,
;

/// Relies on `Rng::gen_range` over `low..=high` for `u32`: the result lies in
/// the closed interval; the call panics when `low > high`.
#[verifier::external_body]
pub(crate) fn draw_u32(low: u32, high: u32) -> (r: u32)
    requires
        low <= high,
    ensures
        low <= r <= high,
{
    rand::thread_rng().gen_range(low..=high)
}

/// Relies on `Rng::gen_range` over `low..=high` for `u64`: the result lies in
/// the closed interval; the call panics when `low > high`.
#[verifier::external_body]
pub(crate) fn draw_u64(low: u64, high: u64) -> (r: u64)
    requires
        low <= high,
    ensures
        low <= r <= high,
{
    rand::thread_rng().gen_range(low..=high)
}

/// Relies on `Rng::gen_range` over `low..=high` for `i32`: the result lies in
/// the closed interval; the call panics when `low > high`.
#[verifier::external_body]
pub(crate) fn draw_i32(low: i32, high: i32) -> (r: i32)
    requires
        low <= high,
    ensures
        low <= r <= high,
{
    rand::thread_rng().gen_range(low..=high)
}

/// Relies on `Rng::gen_range` over `low..=high` for `i64`: the result lies in
/// the closed interval; the call panics when `low > high`.
#[verifier::external_body]
pub(crate) fn draw_i64(low: i64, high: i64) -> (r: i64)
    requires
        low <= high,
    ensures
        low <= r <= high,
{
    rand::thread_rng().gen_range(low..=high)
}

/// Relies on `Rng::gen_range` over `low..=high` for `u128`: the result lies in
/// the closed interval; the call panics when `low > high`.
#[verifier::external_body]
pub(crate) fn draw_u128(low: u128, high: u128) -> (r: u128)
    requires
        low <= high,
    ensures
        low <= r <= high,
{
    rand::thread_rng().gen_range(low..=high)
}

/// Relies on `Rng::gen_range` over `0..len` for `usize`: the result is below
/// `len`; the call panics when `len` is 0.
#[verifier::external_body]
pub(crate) fn draw_index(len: usize) -> (r: usize)
    requires
        0 < len,
    ensures
        r < len,
{
    rand::thread_rng().gen_range(0..len)
}

/// An ASCII letter or digit: `[A-Za-z0-9]`.
pub open spec fn is_alphanumeric(c: char) -> bool {
    ('A' <= c <= 'Z') || ('a' <= c <= 'z') || ('0' <= c <= '9')
}

/// Relies on `DistString::sample_string` of `Alphanumeric`: `len` characters,
/// each one of the 62 in `[A-Za-z0-9]`. The bound on `len` keeps the buffer
/// within what an allocation may hold.
#[verifier::external_body]
pub(crate) fn alphanumeric_string(len: usize) -> (r: String)
    requires
        len <= isize::MAX / 4,
    ensures
        r@.len() == len,
        forall|i: int| 0 <= i < len ==> is_alphanumeric(#[trigger] r@[i]),
{
    rand::distributions::Alphanumeric.sample_string(&mut rand::thread_rng(), len)
}

/// Relies on `DistString::sample_string` of `Standard`: `len` characters, each
/// any Unicode scalar value. It reserves `4 * len` bytes first, which the
/// bound on `len` keeps within what an allocation may hold.
#[verifier::external_body]
pub(crate) fn standard_string(len: usize) -> (r: String)
    requires
        len <= isize::MAX / 4,
    ensures
        r@.len() == len,
{
    rand::distributions::Standard.sample_string(&mut rand::thread_rng(), len)
}

} // verus!
