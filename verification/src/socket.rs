//! The raw packet-socket handle: an OS descriptor bound at construction to
//! a named network interface, with interface-flag control and packet-socket
//! option control. Every operation is one control call on the [`OsLayer`]
//! the caller supplies.

use vstd::prelude::*;
use vstd::string::{StringExecFns, StringSliceAdditionalSpecFns};
use vstd::utf8::encode_utf8;
use crate::abi::{ENXIO, ETH_P_ALL, IF_NAME_SIZE, SIOCGIFFLAGS, SIOCSIFFLAGS, SOCK_RAW, SOL_PACKET,
    host_to_network_u16, spec_swap_bytes_u16};
use crate::err::SockError;
use crate::ifreq::{IfReq, c_name, has_null, padded_name};
use crate::os::OsLayer;

verus! {

/// Encodes `name` as a null-terminated byte string, rejecting embedded
/// nulls, and resolves it to the interface index. An unknown name resolves
/// to index zero, not to an error — the documented quirk of the underlying
/// lookup; the only error is a name the OS encoding refuses.
pub fn get_if_index<O: OsLayer>(os: &O, name: &str) -> (r: Result<u32, SockError>)
    ensures
        r == Err::<u32, SockError>(SockError::InvalidNameEncoding) <==> has_null(
            name.spec_bytes(),
        ),
        !has_null(name.spec_bytes()) ==> r is Ok,
        os.modeled() && !has_null(name.spec_bytes()) ==> r == Ok::<u32, SockError>(
            os.iface_index(name.spec_bytes()),
        ),
{
    let bytes = name.as_bytes();
    let mut cname: Vec<u8> = Vec::new();
    let mut i: usize = 0;
    while i < bytes.len()
        invariant
            i <= bytes@.len(),
            bytes@ == name.spec_bytes(),
            cname@ == bytes@.take(i as int),
            forall|j: int| 0 <= j < i ==> bytes@[j] != 0,
        decreases bytes@.len() - i,
    {
        if bytes[i] == 0 {
            return Err(SockError::InvalidNameEncoding);
        }
        cname.push(bytes[i]);
        assert(cname@ =~= bytes@.take(i + 1));
        i = i + 1;
    }
    assert(cname@ =~= name.spec_bytes());
    cname.push(0);
    assert(cname@.take(cname@.len() - 1) =~= name.spec_bytes());
    Ok(os.if_name_to_index(&cname))
}

/// Reads one packet-socket option of descriptor `fd` into a buffer of
/// exactly `len` bytes: on success, the very bytes the option store holds
/// for `opt`.
pub fn get_sock_opt<O: OsLayer>(os: &O, fd: i32, opt: i32, len: usize) -> (r: Result<
    Vec<u8>,
    SockError,
>)
    ensures
        r matches Ok(v) ==> v@.len() == len,
        os.modeled() ==> (r matches Ok(v) ==> os.sock_options(fd as int).contains_key(opt as int)
            && v@ == os.sock_options(fd as int)[opt as int]),
        os.get_opt_ok(fd as int, SOL_PACKET as int, opt as int) && os.sock_options(
            fd as int,
        ).contains_key(opt as int) && os.sock_options(fd as int)[opt as int].len() == len
            ==> r is Ok,
        os.decides() && !(os.get_opt_ok(fd as int, SOL_PACKET as int, opt as int)
            && os.sock_options(fd as int).contains_key(opt as int) && os.sock_options(
            fd as int,
        )[opt as int].len() == len) ==> r == Err::<Vec<u8>, SockError>(
            SockError::Os(os.get_opt_refusal(fd as int, SOL_PACKET as int, opt as int, len as nat)),
        ),
        r matches Err(e) ==> e is Os,
{
    match os.get_sock_opt(fd, SOL_PACKET, opt, len) {
        Ok(v) => Ok(v),
        Err(e) => Err(SockError::Os(e)),
    }
}

/// A raw packet-socket handle bound to a named network interface.
#[derive(Clone, Debug)]
pub struct Socket {
    /// File descriptor of the packet socket.
    pub fd: i32,
    /// Name of the bound interface.
    pub if_name: String,
    /// Interface index resolved once at construction.
    pub if_index: u32,
    /// The socket kind requested at construction.
    pub sock_type: i32,
}

impl Socket {
    /// The byte form of the bound interface name.
    pub open spec fn spec_name(&self) -> Seq<u8> {
        encode_utf8(self.if_name@)
    }

    /// The logical name the kernel reads from this handle's padded name
    /// field: the name bytes before any embedded null.
    pub open spec fn target_name(&self) -> Seq<u8> {
        c_name(padded_name(self.spec_name()))
    }

    /// Opens a packet socket of the given kind, raw framing, all protocols
    /// in network byte order, bound to the interface named `if_name`.
    /// The name is validated and resolved before anything is opened: a name
    /// that does not fit the name field, holds an embedded null, or
    /// resolves to no interface fails without opening a descriptor.
    pub fn from_if_name<O: OsLayer>(os: &mut O, if_name: &str, socket_type: i32) -> (r: Result<
        Socket,
        SockError,
    >)
        ensures
            r == Err::<Socket, SockError>(SockError::InterfaceNameTooLong)
                <==> if_name.spec_bytes().len() >= IF_NAME_SIZE,
            if_name.spec_bytes().len() >= IF_NAME_SIZE ==> *final(os) == *old(os),
            if_name.spec_bytes().len() < IF_NAME_SIZE ==> (r == Err::<Socket, SockError>(
                SockError::InvalidNameEncoding,
            ) <==> has_null(if_name.spec_bytes())),
            if_name.spec_bytes().len() < IF_NAME_SIZE && has_null(if_name.spec_bytes())
                ==> *final(os) == *old(os),
            old(os).modeled() && if_name.spec_bytes().len() < IF_NAME_SIZE && !has_null(
                if_name.spec_bytes(),
            ) && old(os).iface_index(if_name.spec_bytes()) == 0 ==> r == Err::<Socket, SockError>(
                SockError::Os(ENXIO),
            ) && *final(os) == *old(os),
            if_name.spec_bytes().len() < IF_NAME_SIZE && !has_null(if_name.spec_bytes()) ==> (
            r matches Err(e) ==> e is Os),
            r matches Ok(s) ==> s.if_name@ == if_name@ && s.if_index != 0 && s.sock_type
                == socket_type && s.fd >= 0,
            old(os).modeled() ==> (r matches Ok(s) ==> s.if_index == old(os).iface_index(
                if_name.spec_bytes(),
            )),
            old(os).modeled() ==> (r matches Ok(s) ==> !old(os).open_fds().contains(s.fd as int)
                && final(os).open_fds() == old(os).open_fds().insert(s.fd as int)),
            old(os).modeled() && r is Err ==> final(os).open_fds() == old(os).open_fds(),
            old(os).modeled() && if_name.spec_bytes().len() < IF_NAME_SIZE && !has_null(
                if_name.spec_bytes(),
            ) && old(os).iface_index(if_name.spec_bytes()) != 0 && old(os).open_ok(
                socket_type as int,
                SOCK_RAW as int,
                spec_swap_bytes_u16(ETH_P_ALL) as int,
            ) ==> r is Ok,
            old(os).modeled() && if_name.spec_bytes().len() < IF_NAME_SIZE && !has_null(
                if_name.spec_bytes(),
            ) && old(os).iface_index(if_name.spec_bytes()) != 0 && old(os).decides() && !old(
                os,
            ).open_ok(
                socket_type as int,
                SOCK_RAW as int,
                spec_swap_bytes_u16(ETH_P_ALL) as int,
            ) ==> r == Err::<Socket, SockError>(
                SockError::Os(
                    old(os).open_refusal(
                        socket_type as int,
                        SOCK_RAW as int,
                        spec_swap_bytes_u16(ETH_P_ALL) as int,
                    ),
                ),
            ),
            old(os).modeled() ==> (forall|n: Seq<u8>|
                final(os).iface_flags(n) == old(os).iface_flags(n)),
            old(os).modeled() ==> (forall|n: Seq<u8>|
                final(os).iface_index(n) == old(os).iface_index(n)),
            old(os).modeled() ==> (forall|f: int|
                final(os).sock_options(f) == old(os).sock_options(f)),
    {
        let bytes = if_name.as_bytes();
        if bytes.len() >= IF_NAME_SIZE {
            return Err(SockError::InterfaceNameTooLong);
        }
        let if_index = match get_if_index(os, if_name) {
            Ok(ix) => ix,
            Err(e) => {
                return Err(e);
            },
        };
        if if_index == 0 {
            return Err(SockError::Os(ENXIO));
        }
        let protocol = host_to_network_u16(ETH_P_ALL) as i32;
        match os.open_packet_socket(socket_type, SOCK_RAW, protocol) {
            Ok(fd) => Ok(
                Socket { fd, if_name: String::from_str(if_name), if_index, sock_type: socket_type },
            ),
            Err(e) => Err(SockError::Os(e)),
        }
    }

    /// Reads the current flags of the bound interface with a get-flags
    /// control request; the OS state is left as it was.
    fn get_flags<O: OsLayer>(&self, os: &mut O) -> (r: Result<IfReq, SockError>)
        ensures
            *final(os) == *old(os),
            r == Err::<IfReq, SockError>(SockError::InterfaceNameTooLong) <==> self.spec_name().len()
                >= IF_NAME_SIZE,
            r matches Ok(q) ==> q.wf() && q.ifr_name@ == padded_name(self.spec_name()),
            old(os).modeled() ==> (r matches Ok(q) ==> q.spec_flags() == old(os).iface_flags(
                self.target_name(),
            )),
            old(os).modeled() && r is Ok ==> old(os).iface_index(self.target_name()) != 0,
            self.spec_name().len() < IF_NAME_SIZE && old(os).ioctl_ok(
                self.fd as int,
                self.target_name(),
            ) ==> r is Ok,
            self.spec_name().len() < IF_NAME_SIZE && old(os).decides() && !old(os).ioctl_ok(
                self.fd as int,
                self.target_name(),
            ) ==> r == Err::<IfReq, SockError>(
                SockError::Os(old(os).ioctl_refusal(self.fd as int, self.target_name())),
            ),
            self.spec_name().len() < IF_NAME_SIZE ==> (r matches Err(e) ==> e is Os),
    {
        let req = match IfReq::with_if_name(self.if_name.as_str()) {
            Ok(q) => q,
            Err(e) => {
                return Err(e);
            },
        };
        match os.ioctl(self.fd, SIOCGIFFLAGS, &req) {
            Ok(resp) => Ok(resp),
            Err(e) => Err(SockError::Os(e)),
        }
    }

    /// Reads the current interface flags, bitwise-ORs `flag` in (truncated
    /// to the width of the flags word), and writes the combination back: on
    /// success the interface's flags equal the old flags with the bit set
    /// and nothing else in the OS moved. The read and the write are two
    /// control calls; nothing serializes them against other writers.
    pub fn set_flag<O: OsLayer>(&mut self, os: &mut O, flag: u64) -> (r: Result<(), SockError>)
        ensures
            *final(self) == *old(self),
            r == Err::<(), SockError>(SockError::InterfaceNameTooLong)
                <==> old(self).spec_name().len() >= IF_NAME_SIZE,
            old(os).modeled() && r is Ok ==> final(os).iface_flags(old(self).target_name()) == (
            old(os).iface_flags(old(self).target_name()) | (flag as i16)),
            old(os).modeled() && r is Ok ==> (forall|n: Seq<u8>|
                n != old(self).target_name() ==> final(os).iface_flags(n) == old(os).iface_flags(
                    n,
                )),
            old(os).modeled() && r is Ok ==> (forall|n: Seq<u8>|
                final(os).iface_index(n) == old(os).iface_index(n)),
            old(os).modeled() && r is Ok ==> (forall|f: int|
                final(os).sock_options(f) == old(os).sock_options(f)),
            old(os).modeled() && r is Ok ==> final(os).open_fds() == old(os).open_fds(),
            old(os).modeled() && r is Ok ==> old(os).iface_index(old(self).target_name()) != 0,
            old(self).spec_name().len() < IF_NAME_SIZE && old(os).ioctl_ok(
                old(self).fd as int,
                old(self).target_name(),
            ) ==> r is Ok,
            old(self).spec_name().len() < IF_NAME_SIZE && old(os).decides() && !old(os).ioctl_ok(
                old(self).fd as int,
                old(self).target_name(),
            ) ==> r == Err::<(), SockError>(
                SockError::Os(old(os).ioctl_refusal(old(self).fd as int, old(self).target_name())),
            ),
            r is Err ==> *final(os) == *old(os),
            old(self).spec_name().len() < IF_NAME_SIZE ==> (r matches Err(e) ==> e is Os),
    {
        let current = match self.get_flags(os) {
            Ok(q) => q,
            Err(e) => {
                return Err(e);
            },
        };
        let flags = current.ifr_flags();
        let flag_bit = #[verifier::truncate] (flag as i16);
        let new_flags = flags | flag_bit;
        let mut req = match IfReq::with_if_name(self.if_name.as_str()) {
            Ok(q) => q,
            Err(e) => {
                return Err(e);
            },
        };
        req.set_ifr_flags(new_flags);
        match os.ioctl(self.fd, SIOCSIFFLAGS, &req) {
            Ok(_) => Ok(()),
            Err(e) => Err(SockError::Os(e)),
        }
    }

    /// Sets one packet-socket option of this handle's descriptor to the
    /// exact bytes of `opt_val`: on success the OS records those bytes for
    /// `opt` and nothing else moved.
    pub fn setsockopt<O: OsLayer>(&mut self, os: &mut O, opt: i32, opt_val: &Vec<u8>) -> (r: Result<
        (),
        SockError,
    >)
        ensures
            *final(self) == *old(self),
            old(os).modeled() && r is Ok ==> final(os).sock_options(old(self).fd as int) == old(
                os,
            ).sock_options(old(self).fd as int).insert(opt as int, opt_val@),
            old(os).modeled() && r is Ok ==> (forall|f: int|
                f != old(self).fd as int ==> final(os).sock_options(f) == old(os).sock_options(f)),
            old(os).modeled() && r is Ok ==> (forall|n: Seq<u8>|
                final(os).iface_flags(n) == old(os).iface_flags(n)),
            old(os).modeled() && r is Ok ==> (forall|n: Seq<u8>|
                final(os).iface_index(n) == old(os).iface_index(n)),
            old(os).modeled() && r is Ok ==> final(os).open_fds() == old(os).open_fds(),
            old(os).modeled() && r is Ok ==> (forall|f: int, l: int, o: int|
                final(os).get_opt_ok(f, l, o) == old(os).get_opt_ok(f, l, o)),
            old(os).set_opt_ok(old(self).fd as int, SOL_PACKET as int, opt as int, opt_val@.len())
                ==> r is Ok,
            old(os).decides() && !old(os).set_opt_ok(
                old(self).fd as int,
                SOL_PACKET as int,
                opt as int,
                opt_val@.len(),
            ) ==> r == Err::<(), SockError>(
                SockError::Os(
                    old(os).set_opt_refusal(
                        old(self).fd as int,
                        SOL_PACKET as int,
                        opt as int,
                        opt_val@.len(),
                    ),
                ),
            ),
            r matches Err(e) ==> e is Os && *final(os) == *old(os),
    {
        match os.set_sock_opt(self.fd, SOL_PACKET, opt, opt_val) {
            Ok(_) => Ok(()),
            Err(e) => Err(SockError::Os(e)),
        }
    }

    /// Reads one packet-socket option of this handle's descriptor into a
    /// buffer of exactly `len` bytes: on success, the very bytes the OS
    /// holds for `opt`.
    pub fn getsockopt<O: OsLayer>(&mut self, os: &O, opt: i32, len: usize) -> (r: Result<
        Vec<u8>,
        SockError,
    >)
        ensures
            *final(self) == *old(self),
            r matches Ok(v) ==> v@.len() == len,
            os.modeled() ==> (r matches Ok(v) ==> os.sock_options(old(self).fd as int).contains_key(
                opt as int,
            ) && v@ == os.sock_options(old(self).fd as int)[opt as int]),
            os.get_opt_ok(old(self).fd as int, SOL_PACKET as int, opt as int) && os.sock_options(
                old(self).fd as int,
            ).contains_key(opt as int) && os.sock_options(old(self).fd as int)[opt as int].len()
                == len ==> r is Ok,
            os.decides() && !(os.get_opt_ok(old(self).fd as int, SOL_PACKET as int, opt as int)
                && os.sock_options(old(self).fd as int).contains_key(opt as int)
                && os.sock_options(old(self).fd as int)[opt as int].len() == len) ==> r == Err::<
                Vec<u8>,
                SockError,
            >(
                SockError::Os(
                    os.get_opt_refusal(
                        old(self).fd as int,
                        SOL_PACKET as int,
                        opt as int,
                        len as nat,
                    ),
                ),
            ),
            r matches Err(e) ==> e is Os,
    {
        get_sock_opt(os, self.fd, opt, len)
    }
}

/// Round trip of the option store: when a successful `setsockopt` takes the
/// OS from `pre` to `mid` (it records exactly the written bytes for `opt`),
/// a subsequent successful `getsockopt` on `mid` finds the option and hands
/// those bytes back unchanged.
pub proof fn lemma_sockopt_round_trip<O: OsLayer>(pre: O, mid: O, fd: int, opt: int, val: Seq<u8>)
    requires
        mid.sock_options(fd) == pre.sock_options(fd).insert(opt, val),
    ensures
        mid.sock_options(fd).contains_key(opt),
        mid.sock_options(fd)[opt] == val,
{
}

/// Setting an already-set flag bit is idempotent, and setting any bit
/// clears nothing: the combined word keeps every old bit.
pub proof fn lemma_set_flag_idempotent(flags: i16, bit: i16)
    ensures
        (flags | bit) & flags == flags,
        (flags | bit) & bit == bit,
        flags & bit == bit ==> (flags | bit) == flags,
{
    assert((flags | bit) & flags == flags) by (bit_vector);
    assert((flags | bit) & bit == bit) by (bit_vector);
    assert(flags & bit == bit ==> (flags | bit) == flags) by (bit_vector);
}

} // verus!
