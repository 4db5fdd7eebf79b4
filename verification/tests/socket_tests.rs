//! Behavior of the socket handle against the verified mock OS.

use rawsock::abi::{
    AF_PACKET, EAFNOSUPPORT, EBADF, EINVAL, ENODEV, ENOPROTOOPT, ENXIO, IFF_PROMISC,
    PACKET_FANOUT, SOCK_RAW,
};
use rawsock::err::SockError;
use rawsock::mock::MockOs;
use rawsock::os::OsLayer;
use rawsock::socket::{get_if_index, get_sock_opt, Socket};

fn mock_with(name: &str, index: u32, flags: i16) -> MockOs {
    MockOs::new(name.as_bytes().to_vec(), index, flags)
}

#[test]
fn construct_on_known_interface_succeeds_with_nonzero_index() {
    let mut os = mock_with("lo", 1, 0);
    let s = Socket::from_if_name(&mut os, "lo", AF_PACKET).unwrap();
    assert_eq!(s.if_name, "lo");
    assert_eq!(s.if_index, 1);
    assert_ne!(s.if_index, 0);
    assert_eq!(s.sock_type, AF_PACKET);
    assert!(s.fd >= 0);
    assert_eq!(os.opens, 1);
}

#[test]
fn construct_with_too_long_name_fails_and_opens_nothing() {
    let mut os = mock_with("lo", 1, 0);
    let r = Socket::from_if_name(&mut os, "0123456789abcdef", AF_PACKET);
    assert_eq!(r.unwrap_err(), SockError::InterfaceNameTooLong);
    assert_eq!(os.opens, 0);
}

#[test]
fn construct_with_fifteen_byte_name_is_accepted() {
    let mut os = mock_with("0123456789abcde", 4, 0);
    let s = Socket::from_if_name(&mut os, "0123456789abcde", AF_PACKET).unwrap();
    assert_eq!(s.if_index, 4);
}

#[test]
fn construct_with_embedded_null_fails_and_opens_nothing() {
    let mut os = mock_with("lo", 1, 0);
    let r = Socket::from_if_name(&mut os, "l\0o", AF_PACKET);
    assert_eq!(r.unwrap_err(), SockError::InvalidNameEncoding);
    assert_eq!(os.opens, 0);
}

#[test]
fn construct_on_unknown_interface_fails_and_opens_nothing() {
    let mut os = mock_with("lo", 1, 0);
    let r = Socket::from_if_name(&mut os, "eth9", AF_PACKET);
    assert_eq!(r.unwrap_err(), SockError::Os(ENXIO));
    assert_eq!(os.opens, 0);
}

#[test]
fn construct_without_privilege_reports_the_os_code() {
    let mut os = mock_with("lo", 1, 0);
    os.fail_socket = Some(1);
    let r = Socket::from_if_name(&mut os, "lo", AF_PACKET);
    assert_eq!(r.unwrap_err(), SockError::Os(1));
}

#[test]
fn opening_with_wrong_arguments_is_refused_by_the_mock() {
    let mut os = mock_with("lo", 1, 0);
    // Not the packet family.
    assert_eq!(os.open_packet_socket(2, SOCK_RAW, 0x0300), Err(EAFNOSUPPORT));
    // Not raw framing.
    assert_eq!(os.open_packet_socket(AF_PACKET, 1, 0x0300), Err(EINVAL));
    // Protocol not in network byte order.
    assert_eq!(os.open_packet_socket(AF_PACKET, SOCK_RAW, 3), Err(EINVAL));
    assert_eq!(os.opens, 0);
    // The arguments the constructor hands over are accepted.
    assert_eq!(os.open_packet_socket(AF_PACKET, SOCK_RAW, 0x0300), Ok(3));
    assert_eq!(os.opens, 1);
}

#[test]
fn resolve_known_name_gives_its_index() {
    let os = mock_with("eth0", 7, 0);
    assert_eq!(get_if_index(&os, "eth0").unwrap(), 7);
}

#[test]
fn resolve_unknown_name_gives_zero_not_an_error() {
    let os = mock_with("eth0", 7, 0);
    assert_eq!(get_if_index(&os, "eth1").unwrap(), 0);
}

#[test]
fn resolve_name_with_null_fails_with_encoding_error() {
    let os = mock_with("eth0", 7, 0);
    assert_eq!(
        get_if_index(&os, "eth\u{0}0").unwrap_err(),
        SockError::InvalidNameEncoding
    );
}

#[test]
fn set_promiscuous_bit_toggles_only_that_bit() {
    let mut os = mock_with("mock0", 3, 0);
    let mut s = Socket::from_if_name(&mut os, "mock0", AF_PACKET).unwrap();
    s.set_flag(&mut os, IFF_PROMISC).unwrap();
    assert_eq!(os.if_flags, 0x100);
    // With other bits present, they stay untouched.
    os.if_flags = 0x41;
    s.set_flag(&mut os, IFF_PROMISC).unwrap();
    assert_eq!(os.if_flags, 0x141);
}

#[test]
fn set_flag_is_idempotent_when_bit_already_set() {
    let mut os = mock_with("mock0", 3, 0x100);
    let mut s = Socket::from_if_name(&mut os, "mock0", AF_PACKET).unwrap();
    let before = os.if_flags;
    s.set_flag(&mut os, IFF_PROMISC).unwrap();
    assert_eq!(os.if_flags, before | 0x100);
    assert_eq!(os.if_flags, before);
}

#[test]
fn set_flag_after_interface_vanishes_reports_os_error() {
    let mut os = mock_with("mock0", 3, 0);
    let mut s = Socket::from_if_name(&mut os, "mock0", AF_PACKET).unwrap();
    os.if_name = b"renamed".to_vec();
    assert_eq!(s.set_flag(&mut os, IFF_PROMISC).unwrap_err(), SockError::Os(ENODEV));
    assert_eq!(os.if_flags, 0);
}

#[test]
fn set_flag_after_interface_index_drops_to_zero_reports_os_error() {
    let mut os = mock_with("mock0", 3, 0);
    let mut s = Socket::from_if_name(&mut os, "mock0", AF_PACKET).unwrap();
    os.if_index = 0;
    assert_eq!(s.set_flag(&mut os, IFF_PROMISC).unwrap_err(), SockError::Os(ENODEV));
    assert_eq!(os.if_flags, 0);
}

#[test]
fn set_option_with_wrong_sized_value_fails_with_os_error() {
    let mut os = mock_with("mock0", 3, 0);
    let mut s = Socket::from_if_name(&mut os, "mock0", AF_PACKET).unwrap();
    let too_short = vec![0u8, 1];
    assert_eq!(
        s.setsockopt(&mut os, PACKET_FANOUT, &too_short).unwrap_err(),
        SockError::Os(EINVAL)
    );
}

#[test]
fn fanout_option_round_trips_unchanged() {
    let mut os = mock_with("mock0", 3, 0);
    let mut s = Socket::from_if_name(&mut os, "mock0", AF_PACKET).unwrap();
    let group = vec![0x39u8, 0x05, 0x00, 0x00];
    s.setsockopt(&mut os, PACKET_FANOUT, &group).unwrap();
    let back = s.getsockopt(&mut os, PACKET_FANOUT, 4).unwrap();
    assert_eq!(back, group);
}

#[test]
fn later_option_write_overwrites_earlier_one() {
    let mut os = mock_with("mock0", 3, 0);
    let mut s = Socket::from_if_name(&mut os, "mock0", AF_PACKET).unwrap();
    s.setsockopt(&mut os, PACKET_FANOUT, &vec![1u8, 0, 0, 0]).unwrap();
    s.setsockopt(&mut os, PACKET_FANOUT, &vec![2u8, 0, 0, 0]).unwrap();
    assert_eq!(s.getsockopt(&mut os, PACKET_FANOUT, 4).unwrap(), vec![2u8, 0, 0, 0]);
}

#[test]
fn reading_an_option_never_set_reports_os_error() {
    let mut os = mock_with("mock0", 3, 0);
    let mut s = Socket::from_if_name(&mut os, "mock0", AF_PACKET).unwrap();
    assert_eq!(
        s.getsockopt(&mut os, PACKET_FANOUT, 4).unwrap_err(),
        SockError::Os(ENOPROTOOPT)
    );
}

#[test]
fn reading_with_the_wrong_buffer_size_reports_os_error() {
    let mut os = mock_with("mock0", 3, 0);
    let mut s = Socket::from_if_name(&mut os, "mock0", AF_PACKET).unwrap();
    s.setsockopt(&mut os, PACKET_FANOUT, &vec![9u8, 0, 0, 0]).unwrap();
    assert_eq!(
        s.getsockopt(&mut os, PACKET_FANOUT, 8).unwrap_err(),
        SockError::Os(EINVAL)
    );
}

#[test]
fn option_calls_on_a_foreign_descriptor_report_os_error() {
    let mut os = mock_with("mock0", 3, 0);
    let s = Socket::from_if_name(&mut os, "mock0", AF_PACKET).unwrap();
    let foreign = s.fd + 1;
    assert_eq!(
        get_sock_opt(&os, foreign, PACKET_FANOUT, 4).unwrap_err(),
        SockError::Os(EBADF)
    );
}

#[test]
fn free_get_sock_opt_matches_the_method() {
    let mut os = mock_with("mock0", 3, 0);
    let mut s = Socket::from_if_name(&mut os, "mock0", AF_PACKET).unwrap();
    let val = vec![7u8, 6, 5, 4];
    s.setsockopt(&mut os, PACKET_FANOUT, &val).unwrap();
    assert_eq!(get_sock_opt(&os, s.fd, PACKET_FANOUT, 4).unwrap(), val);
}

#[test]
fn resolve_empty_name_gives_zero() {
    let os = mock_with("eth0", 7, 0);
    assert_eq!(get_if_index(&os, "").unwrap(), 0);
}

#[test]
fn construct_with_empty_name_fails_with_os_error() {
    let mut os = mock_with("eth0", 7, 0);
    let r = Socket::from_if_name(&mut os, "", AF_PACKET);
    assert_eq!(r.unwrap_err(), SockError::Os(ENXIO));
    assert_eq!(os.opens, 0);
}

#[test]
fn errors_describe_themselves() {
    assert_eq!(
        SockError::InterfaceNameTooLong.describe(),
        "interface name too long"
    );
    assert_eq!(
        SockError::InvalidNameEncoding.describe(),
        "interface name holds a null byte"
    );
    assert_eq!(SockError::Os(ENXIO).describe(), "OS call failed");
}
