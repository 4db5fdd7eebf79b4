//! Platform ABI constants and bit-level encodings for Linux `AF_PACKET`
//! sockets on little-endian 64-bit targets (the values of the ioctl request
//! codes and of `SOL_PACKET` are the generic Linux ones used on x86-64).
//!
//! Everything that depends on the kernel's in-memory layout is kept here:
//! the sizes of the interface-request record, and the explicit encoding of
//! the 16-bit interface-flags word into the first two bytes of that record's
//! union region.

use vstd::prelude::*;

verus! {

/// Byte length of the interface-name field of the kernel's
/// interface-request record: 15 name bytes plus a null terminator.
pub const IF_NAME_SIZE: usize = 16;

/// Byte length of the union region that follows the name field in the
/// kernel's interface-request record.
pub const IF_REQ_UNION_SIZE: usize = 24;

/// Packet socket address/protocol family.
pub const AF_PACKET: i32 = 17;

/// Same value as [`AF_PACKET`]; the traditional name for the first
/// argument of the socket-opening call.
pub const PF_PACKET: i32 = 17;

/// Socket type for raw link-layer frames.
pub const SOCK_RAW: i32 = 3;

/// Socket-option level of packet sockets.
pub const SOL_PACKET: i32 = 263;

/// Packet-socket option configuring a fan-out group.
pub const PACKET_FANOUT: i32 = 18;

/// Ethernet pseudo-protocol selecting all protocols, in host byte order.
pub const ETH_P_ALL: u16 = 3;

/// Interface flag: promiscuous mode.
pub const IFF_PROMISC: u64 = 0x100;

/// Ioctl request code: read the interface flags.
pub const SIOCGIFFLAGS: u64 = 0x8913;

/// Ioctl request code: write the interface flags.
pub const SIOCSIFFLAGS: u64 = 0x8914;

/// Error code the OS reports when no interface carries a given name.
pub const ENXIO: i32 = 6;

/// Error code: bad file descriptor.
pub const EBADF: i32 = 9;

/// Error code: invalid argument, e.g. an option value of the wrong size.
pub const EINVAL: i32 = 22;

/// Error code: no such device.
pub const ENODEV: i32 = 19;

/// Error code: too many open files.
pub const EMFILE: i32 = 24;

/// Error code: protocol option not available.
pub const ENOPROTOOPT: i32 = 92;

/// Error code: address family not supported.
pub const EAFNOSUPPORT: i32 = 97;

/// The flags word `f`, encoded as the two bytes that carry it inside the
/// interface-request union region: least-significant byte first, the byte
/// order of the little-endian targets this module describes.
pub open spec fn spec_encode_flags(f: i16) -> (u8, u8) {
    ((f as u16 & 0xff) as u8, ((f as u16 >> 8) & 0xff) as u8)
}

/// The flags word carried by the two bytes `lo` and `hi`,
/// least-significant byte first.
pub open spec fn spec_decode_flags(lo: u8, hi: u8) -> i16 {
    (lo as u16 | ((hi as u16) << 8)) as i16
}

/// Encodes an interface-flags word into the two bytes that carry it in the
/// interface-request union region (least-significant byte first).
pub fn encode_flags(f: i16) -> (r: (u8, u8))
    ensures
        r == spec_encode_flags(f),
{
    let u = f as u16;
    ((u & 0xff) as u8, ((u >> 8) & 0xff) as u8)
}

/// Decodes an interface-flags word from the two bytes that carry it in the
/// interface-request union region (least-significant byte first).
pub fn decode_flags(lo: u8, hi: u8) -> (r: i16)
    ensures
        r == spec_decode_flags(lo, hi),
{
    (lo as u16 | ((hi as u16) << 8)) as i16
}

/// Decoding inverts encoding: any flags word survives a round trip through
/// its two-byte representation.
pub proof fn lemma_flags_round_trip(f: i16)
    ensures
        spec_decode_flags(spec_encode_flags(f).0, spec_encode_flags(f).1) == f,
{
    assert(((f as u16 & 0xff) as u8 as u16 | ((((f as u16 >> 8) & 0xff) as u8 as u16) << 8)) as i16
        == f) by (bit_vector);
}

/// Encoding inverts decoding: any two bytes survive a round trip through
/// the flags word they carry.
pub proof fn lemma_bytes_round_trip(lo: u8, hi: u8)
    ensures
        spec_encode_flags(spec_decode_flags(lo, hi)) == (lo, hi),
{
    assert(((lo as u16 | ((hi as u16) << 8)) as i16 as u16 & 0xff) as u8 == lo) by (bit_vector);
    assert((((lo as u16 | ((hi as u16) << 8)) as i16 as u16 >> 8) & 0xff) as u8 == hi)
        by (bit_vector);
}

/// Converts a 16-bit value from host byte order (little-endian on the
/// targets this module describes) to network byte order by swapping its
/// bytes, as the socket-opening call wants its protocol argument.
pub fn host_to_network_u16(x: u16) -> (r: u16)
    ensures
        r == spec_swap_bytes_u16(x),
{
    ((x & 0xff) << 8) | (x >> 8)
}

/// The 16-bit value `x` with its two bytes exchanged.
pub open spec fn spec_swap_bytes_u16(x: u16) -> u16 {
    ((x & 0xff) << 8) | (x >> 8)
}

/// Swapping bytes twice gives the original value back.
pub proof fn lemma_swap_bytes_involutive(x: u16)
    ensures
        spec_swap_bytes_u16(spec_swap_bytes_u16(x)) == x,
{
    assert(((((x & 0xff) << 8) | (x >> 8)) & 0xff) << 8 | (((x & 0xff) << 8) | (x >> 8)) >> 8
        == x) by (bit_vector);
}

} // verus!
