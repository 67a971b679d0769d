use tera_rand::net::{ipv4_network_prefix, ipv6_network_prefix};
use tera_rand::{random_ipv4, random_ipv4_cidr, random_ipv6, random_ipv6_cidr, Cidr, TeraRandError};

const TRIALS: usize = 1000;

fn v4(a: u8, b: u8, c: u8, d: u8) -> u32 {
    u32::from_be_bytes([a, b, c, d])
}

fn v6(groups: [u16; 8]) -> u128 {
    groups.iter().fold(0u128, |acc, g| (acc << 16) | *g as u128)
}

fn host_bits_zero_v4(c: &Cidr<u32>) -> bool {
    (c.address as u64) % (1u64 << (32 - c.prefix_length)) == 0
}

fn host_bits_zero_v6(c: &Cidr<u128>) -> bool {
    let host = 128 - c.prefix_length;
    if host == 128 {
        c.address == 0
    } else {
        c.address % (1u128 << host) == 0
    }
}

// ipv4 address
#[test]
fn test_random_ipv4() {
    for _ in 0..TRIALS {
        assert!(random_ipv4(None, None).is_ok());
    }
}

#[test]
fn test_random_ipv4_with_both_start_and_end() {
    for _ in 0..TRIALS {
        let a = random_ipv4(Some(v4(127, 0, 0, 1)), Some(v4(127, 0, 0, 3))).unwrap();
        assert!([v4(127, 0, 0, 1), v4(127, 0, 0, 2), v4(127, 0, 0, 3)].contains(&a));
    }
}

#[test]
fn test_random_ipv4_near_max() {
    for _ in 0..TRIALS {
        let a = random_ipv4(Some(v4(255, 255, 255, 253)), Some(v4(255, 255, 255, 255))).unwrap();
        assert!([v4(255, 255, 255, 253), v4(255, 255, 255, 254), v4(255, 255, 255, 255)].contains(&a));
    }
}

#[test]
fn test_random_ipv4_near_min() {
    for _ in 0..TRIALS {
        let a = random_ipv4(Some(v4(0, 0, 0, 0)), Some(v4(0, 0, 0, 2))).unwrap();
        assert!([v4(0, 0, 0, 0), v4(0, 0, 0, 1), v4(0, 0, 0, 2)].contains(&a));
    }
}

#[test]
fn test_random_ipv4_with_start_only() {
    for _ in 0..TRIALS {
        let a = random_ipv4(Some(v4(255, 255, 255, 253)), None).unwrap();
        assert!([v4(255, 255, 255, 253), v4(255, 255, 255, 254), v4(255, 255, 255, 255)].contains(&a));
    }
}

#[test]
fn test_random_ipv4_with_end_only() {
    for _ in 0..TRIALS {
        let a = random_ipv4(None, Some(v4(0, 0, 0, 2))).unwrap();
        assert!([v4(0, 0, 0, 0), v4(0, 0, 0, 1), v4(0, 0, 0, 2)].contains(&a));
    }
}

// ipv6 address
#[test]
fn test_random_ipv6() {
    for _ in 0..TRIALS {
        assert!(random_ipv6(None, None).is_ok());
    }
}

#[test]
fn test_random_ipv6_with_both_start_and_end() {
    let fe80 = v6([0xfe80, 0, 0, 0, 0, 0, 0, 0]);
    for _ in 0..TRIALS {
        let a = random_ipv6(Some(fe80), Some(fe80 + 2)).unwrap();
        assert!([fe80, fe80 + 1, fe80 + 2].contains(&a));
    }
}

#[test]
fn test_random_ipv6_near_max() {
    let start = v6([0xffff, 0xffff, 0xffff, 0xffff, 0xffff, 0xffff, 0xffff, 0xfffd]);
    let end = v6([0xffff; 8]);
    for _ in 0..TRIALS {
        let a = random_ipv6(Some(start), Some(end)).unwrap();
        assert!([start, start + 1, end].contains(&a));
    }
}

#[test]
fn test_random_ipv6_near_min() {
    for _ in 0..TRIALS {
        let a = random_ipv6(Some(0), Some(2)).unwrap();
        assert!([0, 1, 2].contains(&a));
    }
}

#[test]
fn test_random_ipv6_with_start_only() {
    let start = v6([0xffff, 0xffff, 0xffff, 0xffff, 0xffff, 0xffff, 0xffff, 0xfffd]);
    for _ in 0..TRIALS {
        let a = random_ipv6(Some(start), None).unwrap();
        assert!([start, start + 1, u128::MAX].contains(&a));
    }
}

#[test]
fn test_random_ipv6_with_end_only() {
    for _ in 0..TRIALS {
        let a = random_ipv6(None, Some(2)).unwrap();
        assert!([0, 1, 2].contains(&a));
    }
}

#[test]
fn random_ipv4_with_start_after_end_is_invalid_range() {
    assert_eq!(random_ipv4(Some(v4(10, 0, 0, 2)), Some(v4(10, 0, 0, 1))), Err(TeraRandError::InvalidRange));
}

// ipv4 cidr
#[test]
fn test_random_ipv4_cidr() {
    for _ in 0..TRIALS {
        let c = random_ipv4_cidr(None, None, None, None).unwrap();
        assert!(c.prefix_length <= 32);
        assert!(host_bits_zero_v4(&c));
    }
}

#[test]
fn test_random_ipv4_cidr_with_prefix_length_start_and_end() {
    for _ in 0..TRIALS {
        let c = random_ipv4_cidr(None, None, Some(28), Some(30)).unwrap();
        assert!([28, 29, 30].contains(&c.prefix_length));
        assert!(host_bits_zero_v4(&c));
    }
}

#[test]
fn test_random_ipv4_cidr_with_prefix_length_start() {
    for _ in 0..TRIALS {
        let c = random_ipv4_cidr(None, None, Some(30), None).unwrap();
        assert!([30, 31, 32].contains(&c.prefix_length));
        assert!(host_bits_zero_v4(&c));
    }
}

#[test]
fn test_random_ipv4_cidr_with_prefix_length_end() {
    for _ in 0..TRIALS {
        let c = random_ipv4_cidr(None, None, None, Some(2)).unwrap();
        assert!([0, 1, 2].contains(&c.prefix_length));
        assert!(host_bits_zero_v4(&c));
    }
}

#[test]
fn test_random_ipv4_cidr_with_32_bit_prefix() {
    for _ in 0..TRIALS {
        let c = random_ipv4_cidr(None, None, Some(32), Some(32)).unwrap();
        assert_eq!(c.prefix_length, 32);
    }
}

#[test]
fn test_random_ipv4_cidr_with_0_bit_prefix() {
    for _ in 0..TRIALS {
        let c = random_ipv4_cidr(None, None, Some(0), Some(0)).unwrap();
        assert_eq!(c, Cidr { address: 0, prefix_length: 0 });
    }
}

#[test]
fn test_random_ipv4_cidr_with_too_large_prefix_length_returns_error() {
    assert_eq!(
        random_ipv4_cidr(None, None, Some(0), Some(33)),
        Err(TeraRandError::CidrPrefixLengthOutOfBounds { provided_bound: 33, valid_bound_start: 0, valid_bound_end: 32 })
    );
}

#[test]
fn test_random_ipv4_cidr_with_too_small_prefix_length_returns_error() {
    assert_eq!(
        random_ipv4_cidr(None, None, Some(-1), Some(16)),
        Err(TeraRandError::CidrPrefixLengthOutOfBounds { provided_bound: -1, valid_bound_start: 0, valid_bound_end: 32 })
    );
}

#[test]
fn random_ipv4_cidr_address_stays_in_prefix_of_range() {
    for _ in 0..TRIALS {
        let c = random_ipv4_cidr(Some(v4(10, 120, 0, 0)), Some(v4(10, 140, 0, 0)), Some(16), Some(24)).unwrap();
        assert!((16..=24).contains(&c.prefix_length));
        assert!(c.address >= v4(10, 120, 0, 0) && c.address <= v4(10, 140, 0, 0));
        assert!(host_bits_zero_v4(&c));
    }
}

#[test]
fn random_ipv4_cidr_length_start_after_end_is_invalid_range() {
    assert_eq!(random_ipv4_cidr(None, None, Some(20), Some(10)), Err(TeraRandError::InvalidRange));
}

#[test]
fn random_ipv4_cidr_checks_address_range_first() {
    assert_eq!(random_ipv4_cidr(Some(5), Some(4), Some(40), None), Err(TeraRandError::InvalidRange));
}

// ipv6 cidr
#[test]
fn test_random_ipv6_cidr() {
    for _ in 0..TRIALS {
        let c = random_ipv6_cidr(None, None, None, None).unwrap();
        assert!(c.prefix_length <= 128);
        assert!(host_bits_zero_v6(&c));
    }
}

#[test]
fn test_random_ipv6_cidr_with_prefix_length_start_and_end() {
    for _ in 0..TRIALS {
        let c = random_ipv6_cidr(None, None, Some(86), Some(88)).unwrap();
        assert!([86, 87, 88].contains(&c.prefix_length));
        assert!(host_bits_zero_v6(&c));
    }
}

#[test]
fn test_random_ipv6_cidr_with_prefix_length_start() {
    for _ in 0..TRIALS {
        let c = random_ipv6_cidr(None, None, Some(126), None).unwrap();
        assert!([126, 127, 128].contains(&c.prefix_length));
        assert!(host_bits_zero_v6(&c));
    }
}

#[test]
fn test_random_ipv6_cidr_with_prefix_length_end() {
    for _ in 0..TRIALS {
        let c = random_ipv6_cidr(None, None, None, Some(2)).unwrap();
        assert!([0, 1, 2].contains(&c.prefix_length));
        assert!(host_bits_zero_v6(&c));
    }
}

#[test]
fn test_random_ipv6_cidr_with_128_bit_prefix() {
    for _ in 0..TRIALS {
        let c = random_ipv6_cidr(None, None, Some(128), Some(128)).unwrap();
        assert_eq!(c.prefix_length, 128);
    }
}

#[test]
fn test_random_ipv6_cidr_with_0_bit_prefix() {
    for _ in 0..TRIALS {
        let c = random_ipv6_cidr(None, None, Some(0), Some(0)).unwrap();
        assert_eq!(c, Cidr { address: 0, prefix_length: 0 });
    }
}

#[test]
fn test_random_ipv6_cidr_with_too_large_prefix_length_returns_error() {
    assert_eq!(
        random_ipv6_cidr(None, None, Some(0), Some(129)),
        Err(TeraRandError::CidrPrefixLengthOutOfBounds { provided_bound: 129, valid_bound_start: 0, valid_bound_end: 128 })
    );
}

#[test]
fn test_random_ipv6_cidr_with_too_small_prefix_length_returns_error() {
    assert_eq!(
        random_ipv6_cidr(None, None, Some(-1), Some(16)),
        Err(TeraRandError::CidrPrefixLengthOutOfBounds { provided_bound: -1, valid_bound_start: 0, valid_bound_end: 128 })
    );
}

// prefix masking
#[test]
fn ipv4_network_prefix_clears_host_bits() {
    assert_eq!(ipv4_network_prefix(v4(192, 168, 1, 255), 24), v4(192, 168, 1, 0));
    assert_eq!(ipv4_network_prefix(v4(171, 150, 226, 255), 29), v4(171, 150, 226, 248));
    assert_eq!(ipv4_network_prefix(v4(255, 255, 255, 255), 1), v4(128, 0, 0, 0));
}

#[test]
fn ipv4_network_prefix_at_both_ends() {
    assert_eq!(ipv4_network_prefix(v4(196, 119, 240, 7), 0), 0);
    assert_eq!(ipv4_network_prefix(v4(196, 119, 240, 7), 32), v4(196, 119, 240, 7));
    assert_eq!(ipv4_network_prefix(u32::MAX, 0), 0);
}

#[test]
fn ipv6_network_prefix_clears_host_bits() {
    assert_eq!(ipv6_network_prefix(u128::MAX, 64), v6([0xffff, 0xffff, 0xffff, 0xffff, 0, 0, 0, 0]));
    assert_eq!(ipv6_network_prefix(v6([0xfc00, 0, 0, 0, 0, 0, 0, 0x1234]), 127), v6([0xfc00, 0, 0, 0, 0, 0, 0, 0x1234]));
    assert_eq!(ipv6_network_prefix(u128::MAX, 127), u128::MAX - 1);
}

#[test]
fn ipv6_network_prefix_at_both_ends() {
    assert_eq!(ipv6_network_prefix(u128::MAX, 0), 0);
    assert_eq!(ipv6_network_prefix(u128::MAX, 128), u128::MAX);
}
