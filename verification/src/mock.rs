//! A verified in-memory OS layer: one network interface and at most one
//! open packet socket, enough to exercise and prove every operation of the
//! library without touching the real kernel.

use vstd::prelude::*;
use crate::abi::{
    AF_PACKET, EAFNOSUPPORT, EBADF, EINVAL, EMFILE, ENODEV, ENOPROTOOPT, ETH_P_ALL,
    IF_REQ_UNION_SIZE, PACKET_FANOUT, SIOCGIFFLAGS, SOCK_RAW, SOL_PACKET, host_to_network_u16,
    spec_swap_bytes_u16,
};
use crate::ifreq::{IfReq, c_name, zero_vec};
use crate::os::OsLayer;
use vstd::slice::slice_to_vec;

verus! {

/// The option store a sequence of recorded writes amounts to: later writes
/// overwrite earlier ones.
pub open spec fn opts_map(s: Seq<(i32, Vec<u8>)>) -> Map<int, Seq<u8>>
    decreases s.len(),
{
    if s.len() == 0 {
        Map::empty()
    } else {
        opts_map(s.drop_last()).insert(s.last().0 as int, s.last().1@)
    }
}

/// Compares two byte vectors for equality of contents.
fn bytes_eq(a: &Vec<u8>, b: &Vec<u8>) -> (r: bool)
    ensures
        r == (a@ == b@),
{
    if a.len() != b.len() {
        return false;
    }
    let mut i: usize = 0;
    while i < a.len()
        invariant
            i <= a@.len(),
            a@.len() == b@.len(),
            forall|j: int| 0 <= j < i ==> a@[j] == b@[j],
        decreases a@.len() - i,
    {
        if a[i] != b[i] {
            return false;
        }
        i = i + 1;
    }
    assert(a@ =~= b@);
    true
}

/// Finds the bytes the recorded writes leave for option `opt`: the value of
/// the last write with that identifier, if any.
fn find_opt(opts: &Vec<(i32, Vec<u8>)>, opt: i32) -> (r: Option<Vec<u8>>)
    ensures
        r matches Some(v) ==> opts_map(opts@).contains_key(opt as int) && v@ == opts_map(
            opts@,
        )[opt as int],
        r is None ==> !opts_map(opts@).contains_key(opt as int),
{
    let mut i: usize = opts.len();
    assert(opts@.take(i as int) =~= opts@);
    while i > 0
        invariant
            i <= opts@.len(),
            opts_map(opts@).contains_key(opt as int) == opts_map(opts@.take(i as int)).contains_key(
                opt as int,
            ),
            opts_map(opts@).contains_key(opt as int) ==> opts_map(opts@)[opt as int] == opts_map(
                opts@.take(i as int),
            )[opt as int],
        decreases i,
    {
        i = i - 1;
        proof {
            assert(opts@.take(i + 1).drop_last() =~= opts@.take(i as int));
            assert(opts@.take(i + 1).last() == opts@[i as int]);
        }
        if opts[i].0 == opt {
            let v = slice_to_vec(opts[i].1.as_slice());
            return Some(v);
        }
    }
    assert(opts@.take(0) =~= Seq::<(i32, Vec<u8>)>::empty());
    None
}

/// An in-memory OS with one interface and room for one open packet socket.
/// Every contract of [`OsLayer`] is proved of it.
#[derive(Debug)]
pub struct MockOs {
    /// Logical name of the one interface.
    pub if_name: Vec<u8>,
    /// The index that name resolves to.
    pub if_index: u32,
    /// Current flags word of that interface.
    pub if_flags: i16,
    /// Recorded option writes of the open socket, oldest first.
    pub opts: Vec<(i32, Vec<u8>)>,
    /// Whether a socket is open.
    pub opened: bool,
    /// Descriptor of the open socket.
    pub sock_fd: i32,
    /// How many descriptors were ever opened.
    pub opens: u64,
    /// When set, the next socket-opening call fails with this code.
    pub fail_socket: Option<i32>,
}

impl MockOs {
    /// A mock with the given interface, no socket open yet.
    pub fn new(if_name: Vec<u8>, if_index: u32, if_flags: i16) -> (r: MockOs)
        ensures
            r.if_name == if_name,
            r.if_index == if_index,
            r.if_flags == if_flags,
            r.opts@.len() == 0,
            !r.opened,
            r.opens == 0,
            r.fail_socket is None,
            r.iface_index(if_name@) == if_index,
            r.iface_flags(if_name@) == if_flags,
    {
        MockOs {
            if_name,
            if_index,
            if_flags,
            opts: Vec::new(),
            opened: false,
            sock_fd: 0,
            opens: 0,
            fail_socket: None,
        }
    }
}

impl OsLayer for MockOs {
    /// Flags of the one interface; an unknown name carries none.
    open spec fn iface_flags(&self, name: Seq<u8>) -> i16 {
        if name == self.if_name@ {
            self.if_flags
        } else {
            0
        }
    }

    /// Index of the one interface; an unknown name resolves to zero.
    open spec fn iface_index(&self, name: Seq<u8>) -> u32 {
        if name == self.if_name@ {
            self.if_index
        } else {
            0
        }
    }

    /// Options of the open socket; any other descriptor holds none.
    open spec fn sock_options(&self, fd: int) -> Map<int, Seq<u8>> {
        if self.opened && fd == self.sock_fd as int {
            opts_map(self.opts@)
        } else {
            Map::empty()
        }
    }

    /// The one open socket's descriptor, if any.
    open spec fn open_fds(&self) -> Set<int> {
        if self.opened {
            Set::empty().insert(self.sock_fd as int)
        } else {
            Set::empty()
        }
    }

    /// The mock's whole state is the model state.
    open spec fn modeled(&self) -> bool {
        true
    }

    /// The mock is deterministic: the predicates below decide every call.
    open spec fn decides(&self) -> bool {
        true
    }

    /// Opening succeeds whenever no socket is open, no failure is staged,
    /// and the arguments ask for a packet-family raw socket carrying all
    /// protocols in network byte order.
    open spec fn open_ok(&self, domain: int, kind: int, protocol: int) -> bool {
        self.fail_socket is None && !self.opened && domain == AF_PACKET as int && kind
            == SOCK_RAW as int && protocol == spec_swap_bytes_u16(ETH_P_ALL) as int
    }

    /// A flag request succeeds on the open descriptor for the one
    /// interface, while that interface exists (nonzero index).
    open spec fn ioctl_ok(&self, fd: int, name: Seq<u8>) -> bool {
        self.opened && fd == self.sock_fd as int && name == self.if_name@ && self.if_index != 0
    }

    /// An option write succeeds on the open descriptor at the packet level,
    /// unless it is a fan-out value of the wrong size.
    open spec fn set_opt_ok(&self, fd: int, level: int, opt: int, len: nat) -> bool {
        self.opened && fd == self.sock_fd as int && level == SOL_PACKET as int && !(opt
            == PACKET_FANOUT as int && len != 4)
    }

    /// An option read succeeds on the open descriptor at the packet level
    /// (provided the option is stored at the asked length).
    open spec fn get_opt_ok(&self, fd: int, level: int, opt: int) -> bool {
        self.opened && fd == self.sock_fd as int && level == SOL_PACKET as int
    }

    /// The code each refused open carries, in the order the checks run:
    /// the staged failure, one socket at a time, then the arguments.
    open spec fn open_refusal(&self, domain: int, kind: int, protocol: int) -> i32 {
        if self.fail_socket is Some {
            self.fail_socket->0
        } else if self.opened {
            EMFILE
        } else if domain != AF_PACKET as int {
            EAFNOSUPPORT
        } else {
            EINVAL
        }
    }

    /// The code each refused flag request carries: a foreign descriptor,
    /// else a name no live interface carries.
    open spec fn ioctl_refusal(&self, fd: int, name: Seq<u8>) -> i32 {
        if !self.opened || fd != self.sock_fd as int {
            EBADF
        } else {
            ENODEV
        }
    }

    /// The code each refused option write carries: a foreign descriptor, a
    /// level other than the packet level, else a wrong-sized fan-out value.
    open spec fn set_opt_refusal(&self, fd: int, level: int, opt: int, len: nat) -> i32 {
        if !self.opened || fd != self.sock_fd as int {
            EBADF
        } else if level != SOL_PACKET as int {
            ENOPROTOOPT
        } else {
            EINVAL
        }
    }

    /// The code each refused option read carries: a foreign descriptor, a
    /// wrong level or an option never stored, else a stored option of
    /// another size.
    open spec fn get_opt_refusal(&self, fd: int, level: int, opt: int, len: nat) -> i32 {
        if !self.opened || fd != self.sock_fd as int {
            EBADF
        } else if level != SOL_PACKET as int || !self.sock_options(fd).contains_key(opt) {
            ENOPROTOOPT
        } else {
            EINVAL
        }
    }

    fn open_packet_socket(&mut self, domain: i32, kind: i32, protocol: i32) -> (r: Result<
        i32,
        i32,
    >)
    // A staged failure, an already-open socket or arguments other than a
    // packet-family raw socket on all protocols fail with their codes;
    // otherwise the call is owed to succeed (`open_ok`) and hands out
    // descriptor 3.
        ensures
            old(self).fail_socket matches Some(e) ==> r == Err::<i32, i32>(e),
            old(self).fail_socket is None && old(self).opened ==> r == Err::<i32, i32>(EMFILE),
            old(self).open_ok(domain as int, kind as int, protocol as int) ==> r == Ok::<i32, i32>(
                3,
            ) && final(self).opened && final(self).sock_fd == 3 && final(self).opts@.len() == 0,
    {
        match self.fail_socket {
            Some(e) => {
                return Err(e);
            },
            None => {},
        }
        if self.opened {
            return Err(EMFILE);
        }
        if domain != AF_PACKET {
            return Err(EAFNOSUPPORT);
        }
        if kind != SOCK_RAW || protocol != host_to_network_u16(ETH_P_ALL) as i32 {
            return Err(EINVAL);
        }
        self.opened = true;
        self.sock_fd = 3;
        self.opts = Vec::new();
        if self.opens < u64::MAX {
            self.opens = self.opens + 1;
        }
        proof {
            assert(opts_map(self.opts@) =~= Map::<int, Seq<u8>>::empty());
        }
        Ok(3)
    }

    fn ioctl(&mut self, fd: i32, request: u64, req: &IfReq) -> (r: Result<IfReq, i32>)
    // A foreign descriptor fails with EBADF; a name the interface does not
    // carry, or an interface that vanished (index zero), fails with ENODEV.
        ensures
            !old(self).opened || fd != old(self).sock_fd ==> r == Err::<IfReq, i32>(EBADF),
            old(self).opened && fd == old(self).sock_fd && c_name(req.ifr_name@)
                != old(self).if_name@ ==> r == Err::<IfReq, i32>(ENODEV),
            old(self).opened && fd == old(self).sock_fd && c_name(req.ifr_name@)
                == old(self).if_name@ && old(self).if_index == 0 ==> r == Err::<IfReq, i32>(ENODEV),
    {
        if !self.opened || fd != self.sock_fd {
            return Err(EBADF);
        }
        let target = req.name_bytes();
        if !bytes_eq(&target, &self.if_name) {
            return Err(ENODEV);
        }
        if self.if_index == 0 {
            return Err(ENODEV);
        }
        let name_copy = slice_to_vec(req.ifr_name.as_slice());
        if request == SIOCGIFFLAGS {
            let mut resp = IfReq { ifr_name: name_copy, ifr_union: zero_vec(IF_REQ_UNION_SIZE) };
            resp.set_ifr_flags(self.if_flags);
            Ok(resp)
        } else {
            self.if_flags = req.ifr_flags();
            let resp = IfReq {
                ifr_name: name_copy,
                ifr_union: slice_to_vec(req.ifr_union.as_slice()),
            };
            Ok(resp)
        }
    }

    fn if_name_to_index(&self, cname: &Vec<u8>) -> (r: u32) {
        let n = cname.len() - 1;
        if n != self.if_name.len() {
            proof {
                assert(cname@.take(cname@.len() - 1).len() != self.if_name@.len());
            }
            return 0;
        }
        let mut i: usize = 0;
        while i < n
            invariant
                n == self.if_name@.len(),
                n == cname@.len() - 1,
                i <= n,
                forall|j: int| 0 <= j < i ==> cname@[j] == self.if_name@[j],
            decreases n - i,
        {
            if cname[i] != self.if_name[i] {
                proof {
                    assert(cname@.take(cname@.len() - 1)[i as int] != self.if_name@[i as int]);
                }
                return 0;
            }
            i = i + 1;
        }
        assert(cname@.take(cname@.len() - 1) =~= self.if_name@);
        self.if_index
    }

    fn set_sock_opt(&mut self, fd: i32, level: i32, opt: i32, val: &Vec<u8>) -> (r: Result<
        (),
        i32,
    >)
    // A foreign descriptor, a level other than the packet level, and a
    // wrong-sized fan-out value each fail with its code.
        ensures
            !old(self).opened || fd != old(self).sock_fd ==> r == Err::<(), i32>(EBADF),
            old(self).opened && fd == old(self).sock_fd && level != SOL_PACKET ==> r == Err::<
                (),
                i32,
            >(ENOPROTOOPT),
            old(self).opened && fd == old(self).sock_fd && level == SOL_PACKET && opt
                == PACKET_FANOUT && val@.len() != 4 ==> r == Err::<(), i32>(EINVAL),
    {
        if !self.opened || fd != self.sock_fd {
            return Err(EBADF);
        }
        if level != SOL_PACKET {
            return Err(ENOPROTOOPT);
        }
        if opt == PACKET_FANOUT && val.len() != 4 {
            return Err(EINVAL);
        }
        let copy = slice_to_vec(val.as_slice());
        self.opts.push((opt, copy));
        proof {
            assert(self.opts@.drop_last() =~= old(self).opts@);
            assert(opts_map(self.opts@) == opts_map(old(self).opts@).insert(opt as int, val@));
        }
        Ok(())
    }

    fn get_sock_opt(&self, fd: i32, level: i32, opt: i32, len: usize) -> (r: Result<Vec<u8>, i32>)
    // A foreign descriptor, a wrong level, an option never stored and a
    // stored option of another size each fail with its code.
        ensures
            !self.opened || fd != self.sock_fd ==> r == Err::<Vec<u8>, i32>(EBADF),
            self.opened && fd == self.sock_fd && level != SOL_PACKET ==> r == Err::<Vec<u8>, i32>(
                ENOPROTOOPT,
            ),
            self.get_opt_ok(fd as int, level as int, opt as int) && !self.sock_options(
                fd as int,
            ).contains_key(opt as int) ==> r == Err::<Vec<u8>, i32>(ENOPROTOOPT),
            self.get_opt_ok(fd as int, level as int, opt as int) && self.sock_options(
                fd as int,
            ).contains_key(opt as int) && self.sock_options(fd as int)[opt as int].len() != len
                ==> r == Err::<Vec<u8>, i32>(EINVAL),
    {
        if !self.opened || fd != self.sock_fd {
            return Err(EBADF);
        }
        if level != SOL_PACKET {
            return Err(ENOPROTOOPT);
        }
        match find_opt(&self.opts, opt) {
            Some(v) => {
                if v.len() == len {
                    Ok(v)
                } else {
                    Err(EINVAL)
                }
            },
            None => Err(ENOPROTOOPT),
        }
    }
}

/// Resolving a name the mock's interface does not carry yields index zero,
/// not an error: with `get_if_index`'s contract, a well-encoded unknown
/// name resolves to `Ok(0)`.
pub proof fn lemma_unknown_name_resolves_to_zero(os: MockOs, name: Seq<u8>)
    requires
        name != os.if_name@,
    ensures
        os.iface_index(name) == 0,
{
}

} // verus!
