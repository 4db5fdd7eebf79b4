//! The interface-request record: name padding, flag carriage, defaults.

use rawsock::abi::{IF_NAME_SIZE, IF_REQ_UNION_SIZE};
use rawsock::err::SockError;
use rawsock::ifreq::IfReq;

#[test]
fn with_if_name_pads_the_name_with_nulls() {
    let q = IfReq::with_if_name("lo").unwrap();
    assert_eq!(q.ifr_name.len(), IF_NAME_SIZE);
    assert_eq!(&q.ifr_name[..2], b"lo");
    assert!(q.ifr_name[2..].iter().all(|&b| b == 0));
    assert_eq!(q.ifr_union.len(), IF_REQ_UNION_SIZE);
    assert!(q.ifr_union.iter().all(|&b| b == 0));
}

#[test]
fn with_if_name_rejects_names_at_the_field_limit() {
    assert_eq!(
        IfReq::with_if_name("0123456789abcdef").unwrap_err(),
        SockError::InterfaceNameTooLong
    );
    assert!(IfReq::with_if_name("0123456789abcde").is_ok());
}

#[test]
fn flags_written_are_flags_read() {
    let mut q = IfReq::with_if_name("eth0").unwrap();
    assert_eq!(q.ifr_flags(), 0);
    q.set_ifr_flags(0x141);
    assert_eq!(q.ifr_flags(), 0x141);
    assert_eq!(q.ifr_union[0], 0x41);
    assert_eq!(q.ifr_union[1], 0x01);
    q.set_ifr_flags(-2);
    assert_eq!(q.ifr_flags(), -2);
    assert_eq!(&q.ifr_name[..4], b"eth0");
}

#[test]
fn default_request_is_all_zero() {
    let q = IfReq::default();
    assert!(q.ifr_name.iter().all(|&b| b == 0));
    assert!(q.ifr_union.iter().all(|&b| b == 0));
    assert_eq!(q.ifr_flags(), 0);
}

#[test]
fn name_bytes_stop_at_the_first_null() {
    let q = IfReq::with_if_name("wlan1").unwrap();
    assert_eq!(q.name_bytes(), b"wlan1".to_vec());
    let d = IfReq::default();
    assert_eq!(d.name_bytes(), Vec::<u8>::new());
}
