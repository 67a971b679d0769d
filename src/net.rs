//! IPv4 and IPv6 addresses, and CIDR network prefixes.
//!
//! An IPv4 address is a `u32` and an IPv6 address a `u128`, most significant
//! bit first. A CIDR block is an address whose bits past the prefix length are
//! all zero, together with that length.
use vstd::arithmetic::div_mod::{
    lemma_basic_div, lemma_div_basics, lemma_div_by_multiple, lemma_fundamental_div_mod, lemma_mod_multiples_basic,
};
use vstd::arithmetic::mul::lemma_mul_is_commutative;
use vstd::arithmetic::power2::{lemma2_to64, lemma_pow2_adds, lemma_pow2_pos, lemma_pow2_unfold, pow2};
use vstd::bits::{lemma_u128_shr_is_div, lemma_u32_shl_is_mul, lemma_u32_shr_is_div};
use crate::error::TeraRandError;
use crate::range::{bound_or, sample_u128, sample_u32};
use vstd::prelude::*;

verus! {

/// `addr` with its lowest `host_bits` bits set to zero.
pub open spec fn clear_low_bits(addr: nat, host_bits: nat) -> nat {
    addr / pow2(host_bits) * pow2(host_bits)
}

/// The network prefix of length `prefix_length` of an IPv4 address.
pub open spec fn ipv4_prefix(addr: u32, prefix_length: u32) -> nat {
    clear_low_bits(addr as nat, (32 - prefix_length) as nat)
}

/// The network prefix of length `prefix_length` of an IPv6 address.
pub open spec fn ipv6_prefix(addr: u128, prefix_length: u32) -> nat {
    clear_low_bits(addr as nat, (128 - prefix_length) as nat)
}

proof fn lemma_clear_low_bits_bounds(addr: nat, host_bits: nat)
    ensures
        clear_low_bits(addr, host_bits) <= addr,
        clear_low_bits(addr, host_bits) % pow2(host_bits) == 0,
        clear_low_bits(addr, host_bits) / pow2(host_bits) == addr / pow2(host_bits),
{
    let p = pow2(host_bits) as int;
    lemma_pow2_pos(host_bits);
    lemma_fundamental_div_mod(addr as int, p);
    lemma_mul_is_commutative(p, addr as int / p);
    lemma_mod_multiples_basic(addr as int / p, p);
    lemma_div_by_multiple(addr as int / p, p);
}

/// A shift left by `s` multiplies by `2^s` when the product fits in 128 bits.
proof fn lemma_u128_shl_is_mul(x: u128, s: u128)
    requires
        s < 128,
        x * pow2(s as nat) <= u128::MAX,
    ensures
        x << s == x * pow2(s as nat),
    decreases s,
{
    if s == 0 {
        lemma2_to64();
        assert(x << 0u128 == x) by (bit_vector);
    } else {
        let t = (s - 1) as u128;
        lemma_pow2_unfold(s as nat);
        lemma_pow2_pos(t as nat);
        assert(x * pow2(t as nat) <= u128::MAX) by (nonlinear_arith)
            requires
                x * pow2(s as nat) <= u128::MAX,
                pow2(s as nat) == 2 * pow2(t as nat),
        ;
        lemma_u128_shl_is_mul(x, t);
        let y = x << t;
        assert(y * 2 <= u128::MAX) by (nonlinear_arith)
            requires
                y == x * pow2(t as nat),
                x * pow2(s as nat) <= u128::MAX,
                pow2(s as nat) == 2 * pow2(t as nat),
        ;
        assert(x << s == (x << t) << 1u128) by (bit_vector)
            requires
                t + 1 == s,
                s < 128,
        ;
        assert(y << 1u128 == y * 2) by (bit_vector)
            requires
                y * 2 <= u128::MAX,
        ;
        assert(y * 2 == x * pow2(s as nat)) by (nonlinear_arith)
            requires
                y == x * pow2(t as nat),
                pow2(s as nat) == 2 * pow2(t as nat),
        ;
    }
}

/// For every prefix length from 0 to 32, the network prefix of an IPv4
/// address has all bits past the prefix length zero and keeps the bits before
/// it. A length of 0 gives the zero address; a length of 32 gives the address
/// itself.
pub proof fn lemma_ipv4_prefix_clears_host_bits(addr: u32, prefix_length: u32)
    requires
        prefix_length <= 32,
    ensures
        ipv4_prefix(addr, prefix_length) % pow2((32 - prefix_length) as nat) == 0,
        ipv4_prefix(addr, prefix_length) / pow2((32 - prefix_length) as nat) == addr as nat / pow2(
            (32 - prefix_length) as nat,
        ),
        prefix_length == 0 ==> ipv4_prefix(addr, prefix_length) == 0,
        prefix_length == 32 ==> ipv4_prefix(addr, prefix_length) == addr,
{
    lemma_clear_low_bits_bounds(addr as nat, (32 - prefix_length) as nat);
    lemma2_to64();
    if prefix_length == 0 {
        lemma_basic_div(addr as int, pow2(32) as int);
    }
    lemma_div_basics(addr as int);
}

/// For every prefix length from 0 to 128, the network prefix of an IPv6
/// address has all bits past the prefix length zero and keeps the bits before
/// it. A length of 0 gives the zero address; a length of 128 gives the address
/// itself.
pub proof fn lemma_ipv6_prefix_clears_host_bits(addr: u128, prefix_length: u32)
    requires
        prefix_length <= 128,
    ensures
        ipv6_prefix(addr, prefix_length) % pow2((128 - prefix_length) as nat) == 0,
        ipv6_prefix(addr, prefix_length) / pow2((128 - prefix_length) as nat) == addr as nat
            / pow2((128 - prefix_length) as nat),
        prefix_length == 0 ==> ipv6_prefix(addr, prefix_length) == 0,
        prefix_length == 128 ==> ipv6_prefix(addr, prefix_length) == addr,
{
    lemma_clear_low_bits_bounds(addr as nat, (128 - prefix_length) as nat);
    lemma2_to64();
    if prefix_length == 0 {
        lemma_pow2_adds(64, 64);
        lemma_basic_div(addr as int, pow2(128) as int);
    }
    lemma_div_basics(addr as int);
}

/// The network prefix of length `prefix_length` of an IPv4 address. A length
/// of 0 clears all 32 bits, which a shift by 32 could not do.
pub fn ipv4_network_prefix(addr: u32, prefix_length: u32) -> (r: u32)
    requires
        prefix_length <= 32,
    ensures
        r == ipv4_prefix(addr, prefix_length),
{
    let bits_to_shift: u32 = u32::BITS - prefix_length;
    proof {
        lemma_clear_low_bits_bounds(addr as nat, bits_to_shift as nat);
    }
    if bits_to_shift == u32::BITS {
        proof {
            lemma2_to64();
            lemma_basic_div(addr as int, pow2(32) as int);
        }
        0
    } else {
        let high: u32 = addr >> bits_to_shift;
        proof {
            lemma_u32_shr_is_div(addr, bits_to_shift);
            lemma_u32_shl_is_mul(high, bits_to_shift);
        }
        high << bits_to_shift
    }
}

/// The network prefix of length `prefix_length` of an IPv6 address. A length
/// of 0 clears all 128 bits, which a shift by 128 could not do.
pub fn ipv6_network_prefix(addr: u128, prefix_length: u32) -> (r: u128)
    requires
        prefix_length <= 128,
    ensures
        r == ipv6_prefix(addr, prefix_length),
{
    let bits_to_shift: u32 = u128::BITS - prefix_length;
    proof {
        lemma_clear_low_bits_bounds(addr as nat, bits_to_shift as nat);
    }
    if bits_to_shift == u128::BITS {
        proof {
            lemma2_to64();
            lemma_pow2_adds(64, 64);
            lemma_basic_div(addr as int, pow2(128) as int);
        }
        0
    } else {
        let high: u128 = addr >> bits_to_shift;
        proof {
            lemma_u128_shr_is_div(addr, bits_to_shift as u128);
            lemma_u128_shl_is_mul(high, bits_to_shift as u128);
        }
        high << bits_to_shift
    }
}


/// A network prefix: an address whose bits past `prefix_length` are zero.
#[derive(Debug, Clone, Copy, PartialEq, Eq)]
pub struct Cidr<A> {
    pub address: A,
    pub prefix_length: u32,
}

/// The error that a prefix length bound brings, if it lies outside `[0, bit_width]`.
pub open spec fn prefix_length_bound_error(bound: Option<i64>, bit_width: u32) -> Option<
    TeraRandError,
> {
    match bound {
        Some(b) => if 0 <= b <= bit_width {
            None
        } else {
            Some(
                TeraRandError::CidrPrefixLengthOutOfBounds {
                    provided_bound: b,
                    valid_bound_start: 0,
                    valid_bound_end: bit_width,
                },
            )
        },
        None => None,
    }
}

/// The error a CIDR request brings, checked in this order: the address range,
/// the lower and the upper prefix length bound, then the prefix length range.
pub open spec fn cidr_error(
    address_range_ok: bool,
    length_start: Option<i64>,
    length_end: Option<i64>,
    bit_width: u32,
) -> Option<TeraRandError> {
    if !address_range_ok {
        Some(TeraRandError::InvalidRange)
    } else if prefix_length_bound_error(length_start, bit_width) is Some {
        prefix_length_bound_error(length_start, bit_width)
    } else if prefix_length_bound_error(length_end, bit_width) is Some {
        prefix_length_bound_error(length_end, bit_width)
    } else if bound_or(length_start, 0) > bound_or(length_end, bit_width as i64) {
        Some(TeraRandError::InvalidRange)
    } else {
        None
    }
}

/// Checks that a prefix length bound, if given, lies in `[0, bit_width]`.
pub fn check_prefix_length_bound(bound: Option<i64>, bit_width: u32) -> (r: Result<
    Option<u32>,
    TeraRandError,
>)
    ensures
        r is Err <==> prefix_length_bound_error(bound, bit_width) is Some,
        r matches Err(e) ==> prefix_length_bound_error(bound, bit_width) == Some(e),
        r matches Ok(v) ==> (v is None <==> bound is None) && (v matches Some(l) ==> bound
            == Some(l as i64)),
{
    match bound {
        None => Ok(None),
        Some(b) => {
            if 0 <= b && b <= bit_width as i64 {
                Ok(Some(b as u32))
            } else {
                Err(
                    TeraRandError::CidrPrefixLengthOutOfBounds {
                        provided_bound: b,
                        valid_bound_start: 0,
                        valid_bound_end: bit_width,
                    },
                )
            }
        },
    }
}

/// Draws a prefix length from `[low, high]`, a missing side being 0 or
/// `bit_width`, after checking both given sides against `[0, bit_width]`.
fn sample_prefix_length(length_start: Option<i64>, length_end: Option<i64>, bit_width: u32) -> (r:
    Result<u32, TeraRandError>)
    ensures
        r is Err <==> cidr_error(true, length_start, length_end, bit_width) is Some,
        r matches Err(e) ==> cidr_error(true, length_start, length_end, bit_width) == Some(e),
        r matches Ok(l) ==> bound_or(length_start, 0) <= l <= bound_or(
            length_end,
            bit_width as i64,
        ) && l <= bit_width,
{
    let low = match check_prefix_length_bound(length_start, bit_width) {
        Ok(v) => v,
        Err(e) => return Err(e),
    };
    let high = match check_prefix_length_bound(length_end, bit_width) {
        Ok(v) => v,
        Err(e) => return Err(e),
    };
    let low: u32 = match low {
        Some(l) => l,
        None => 0,
    };
    let high: u32 = match high {
        Some(h) => h,
        None => bit_width,
    };
    sample_u32(Some(low), Some(high), 0, bit_width)
}

/// A random IPv4 address in `[start, end]`, a missing side being `0.0.0.0` or
/// `255.255.255.255`.
pub fn random_ipv4(start: Option<u32>, end: Option<u32>) -> (r: Result<u32, TeraRandError>)
    ensures
        r is Ok <==> bound_or(start, 0) <= bound_or(end, u32::MAX),
        r is Err ==> r == Err::<u32, TeraRandError>(TeraRandError::InvalidRange),
        r matches Ok(a) ==> bound_or(start, 0) <= a <= bound_or(end, u32::MAX),
{
    sample_u32(start, end, u32::MIN, u32::MAX)
}

/// A random IPv6 address in `[start, end]`, a missing side being `::` or
/// `ffff:ffff:ffff:ffff:ffff:ffff:ffff:ffff`.
pub fn random_ipv6(start: Option<u128>, end: Option<u128>) -> (r: Result<u128, TeraRandError>)
    ensures
        r is Ok <==> bound_or(start, 0) <= bound_or(end, u128::MAX),
        r is Err ==> r == Err::<u128, TeraRandError>(TeraRandError::InvalidRange),
        r matches Ok(a) ==> bound_or(start, 0) <= a <= bound_or(end, u128::MAX),
{
    sample_u128(start, end, u128::MIN, u128::MAX)
}

/// A random IPv4 network prefix: an address drawn from
/// `[addr_start, addr_end]`, masked to a prefix length drawn from
/// `[length_start, length_end]` (by default `[0, 32]`).
pub fn random_ipv4_cidr(
    addr_start: Option<u32>,
    addr_end: Option<u32>,
    length_start: Option<i64>,
    length_end: Option<i64>,
) -> (r: Result<Cidr<u32>, TeraRandError>)
    ensures
        ({
            let error = cidr_error(
                bound_or(addr_start, 0) <= bound_or(addr_end, u32::MAX),
                length_start,
                length_end,
                32,
            );
            &&& r is Err <==> error is Some
            &&& r matches Err(e) ==> error == Some(e)
        }),
        r matches Ok(c) ==> {
            &&& bound_or(length_start, 0) <= c.prefix_length <= bound_or(length_end, 32)
            &&& c.prefix_length <= 32
            &&& c.address as nat % pow2((32 - c.prefix_length) as nat) == 0
            &&& exists|a: u32|
                bound_or(addr_start, 0) <= a <= bound_or(addr_end, u32::MAX) && c.address
                    == #[trigger] ipv4_prefix(a, c.prefix_length)
        },
{
    let addr = match sample_u32(addr_start, addr_end, u32::MIN, u32::MAX) {
        Ok(a) => a,
        Err(e) => return Err(e),
    };
    let prefix_length = match sample_prefix_length(length_start, length_end, u32::BITS) {
        Ok(l) => l,
        Err(e) => return Err(e),
    };
    let address = ipv4_network_prefix(addr, prefix_length);
    proof {
        lemma_clear_low_bits_bounds(addr as nat, (32 - prefix_length) as nat);
        assert(address == ipv4_prefix(addr, prefix_length));
        assert(bound_or(addr_start, 0) <= addr <= bound_or(addr_end, u32::MAX));
    }
    Ok(Cidr { address, prefix_length })
}

/// A random IPv6 network prefix: an address drawn from
/// `[addr_start, addr_end]`, masked to a prefix length drawn from
/// `[length_start, length_end]` (by default `[0, 128]`).
pub fn random_ipv6_cidr(
    addr_start: Option<u128>,
    addr_end: Option<u128>,
    length_start: Option<i64>,
    length_end: Option<i64>,
) -> (r: Result<Cidr<u128>, TeraRandError>)
    ensures
        ({
            let error = cidr_error(
                bound_or(addr_start, 0) <= bound_or(addr_end, u128::MAX),
                length_start,
                length_end,
                128,
            );
            &&& r is Err <==> error is Some
            &&& r matches Err(e) ==> error == Some(e)
        }),
        r matches Ok(c) ==> {
            &&& bound_or(length_start, 0) <= c.prefix_length <= bound_or(length_end, 128)
            &&& c.prefix_length <= 128
            &&& c.address as nat % pow2((128 - c.prefix_length) as nat) == 0
            &&& exists|a: u128|
                bound_or(addr_start, 0) <= a <= bound_or(addr_end, u128::MAX) && c.address
                    == #[trigger] ipv6_prefix(a, c.prefix_length)
        },
{
    let addr = match sample_u128(addr_start, addr_end, u128::MIN, u128::MAX) {
        Ok(a) => a,
        Err(e) => return Err(e),
    };
    let prefix_length = match sample_prefix_length(length_start, length_end, u128::BITS) {
        Ok(l) => l,
        Err(e) => return Err(e),
    };
    let address = ipv6_network_prefix(addr, prefix_length);
    proof {
        lemma_clear_low_bits_bounds(addr as nat, (128 - prefix_length) as nat);
        assert(address == ipv6_prefix(addr, prefix_length));
        assert(bound_or(addr_start, 0) <= addr <= bound_or(addr_end, u128::MAX));
    }
    Ok(Cidr { address, prefix_length })
}

} // verus!
