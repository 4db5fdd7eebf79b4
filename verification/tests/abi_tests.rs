//! The bit-level ABI encodings: flag-word bytes and byte-order conversion.

use rawsock::abi::{
    decode_flags, encode_flags, host_to_network_u16, ETH_P_ALL, IFF_PROMISC, SIOCGIFFLAGS,
    SIOCSIFFLAGS,
};

#[test]
fn flags_encode_least_significant_byte_first() {
    assert_eq!(encode_flags(0x1234), (0x34, 0x12));
    assert_eq!(encode_flags(0x100), (0x00, 0x01));
    assert_eq!(encode_flags(0), (0, 0));
    assert_eq!(encode_flags(-1), (0xff, 0xff));
    assert_eq!(encode_flags(i16::MIN), (0x00, 0x80));
}

#[test]
fn flags_decode_reads_both_byte_positions() {
    assert_eq!(decode_flags(0x34, 0x12), 0x1234);
    assert_eq!(decode_flags(0x12, 0x34), 0x3412);
    assert_eq!(decode_flags(0x00, 0x01), 0x100);
    assert_eq!(decode_flags(0xff, 0xff), -1);
    assert_eq!(decode_flags(0x00, 0x80), i16::MIN);
}

#[test]
fn flag_bytes_round_trip_in_both_directions() {
    for f in [0i16, 1, 0x100, 0x1234, -1, i16::MIN, i16::MAX] {
        let (lo, hi) = encode_flags(f);
        assert_eq!(decode_flags(lo, hi), f);
    }
    for (lo, hi) in [(0u8, 0u8), (1, 0), (0, 1), (0xab, 0xcd), (0xff, 0xff)] {
        let f = decode_flags(lo, hi);
        assert_eq!(encode_flags(f), (lo, hi));
    }
}

#[test]
fn protocol_constant_converts_to_network_byte_order() {
    assert_eq!(host_to_network_u16(ETH_P_ALL), 0x0300);
    assert_eq!(host_to_network_u16(host_to_network_u16(0xbeef)), 0xbeef);
}

#[test]
fn control_request_codes_match_the_linux_values() {
    assert_eq!(SIOCGIFFLAGS, 35091);
    assert_eq!(SIOCSIFFLAGS, 35092);
    assert_eq!(IFF_PROMISC, 0x100);
}
