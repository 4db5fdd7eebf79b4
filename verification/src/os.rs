//! The slice of operating-system state this library touches, as the library
//! models it: per-interface flags and indices, the packet-socket options the
//! OS records per descriptor, and the allocated descriptors.
//!
//! Every method is one synchronous control call; an `Err` carries the OS
//! error code. Clauses that speak of the model state bind only a layer that
//! declares itself `modeled`; success is owed only where a layer's success
//! predicates hold, and a deciding layer (`decides`) fails everywhere else,
//! with the code its refusal functions name. A real OS keeps state this
//! model cannot see and promises none of that: its predicates stay at their
//! defaults, and only the model-free clauses bind it (a nonnegative
//! descriptor, a name-preserving well-formed response, untouched state where
//! nothing moved, every failure surfaced as its error code). The verified
//! in-memory [`crate::mock::MockOs`] is modeled and deciding and backs the
//! proofs and the tests; an implementation that issues the real system calls
//! can live outside this library.

use vstd::prelude::*;
use crate::abi::{SIOCGIFFLAGS, SIOCSIFFLAGS};
use crate::ifreq::{IfReq, c_name};

verus! {

pub trait OsLayer: Sized {
    /// Whether the spec functions below capture this layer's state. The
    /// in-memory mock is fully modeled; a real OS is not, leaves this
    /// false, and is then bound only by the model-free clauses.
    open spec fn modeled(&self) -> bool {
        false
    }

    /// The flags word of the interface with logical name `name`.
    /// Meaningful only on a modeled layer; the default carries none.
    open spec fn iface_flags(&self, name: Seq<u8>) -> i16 {
        0
    }

    /// The index of the interface with logical name `name`; zero where no
    /// interface carries that name. Meaningful only on a modeled layer.
    open spec fn iface_index(&self, name: Seq<u8>) -> u32 {
        0
    }

    /// The packet-socket options recorded for descriptor `fd`, by option
    /// identifier. Meaningful only on a modeled layer.
    open spec fn sock_options(&self, fd: int) -> Map<int, Seq<u8>> {
        Map::empty()
    }

    /// The descriptors currently allocated by this layer. Meaningful only
    /// on a modeled layer.
    open spec fn open_fds(&self) -> Set<int> {
        Set::empty()
    }

    /// Whether this layer is deterministic: the success predicates below
    /// then decide every call, and a refused call carries the code the
    /// refusal functions name. The in-memory mock is; a real OS decides by
    /// state this model cannot see, and leaves this false.
    open spec fn decides(&self) -> bool {
        false
    }

    /// When opening a packet socket with these arguments is owed to
    /// succeed. No promise by default: a real OS may refuse for want of
    /// privilege.
    open spec fn open_ok(&self, domain: int, kind: int, protocol: int) -> bool {
        false
    }

    /// When a flag control request on descriptor `fd` for the interface
    /// with logical name `name` is owed to succeed. No promise by default.
    open spec fn ioctl_ok(&self, fd: int, name: Seq<u8>) -> bool {
        false
    }

    /// When an option write of `len` bytes to option `opt` of descriptor
    /// `fd` at option level `level` is owed to succeed. No promise by
    /// default.
    open spec fn set_opt_ok(&self, fd: int, level: int, opt: int, len: nat) -> bool {
        false
    }

    /// When an option read from descriptor `fd` at option level `level` is
    /// owed to succeed, provided the option is stored at the asked length.
    /// No promise by default.
    open spec fn get_opt_ok(&self, fd: int, level: int, opt: int) -> bool {
        false
    }

    /// The code a deciding layer reports when it refuses to open a packet
    /// socket with these arguments.
    open spec fn open_refusal(&self, domain: int, kind: int, protocol: int) -> i32 {
        0
    }

    /// The code a deciding layer reports when it refuses a flag control
    /// request on descriptor `fd` for the interface named `name`.
    open spec fn ioctl_refusal(&self, fd: int, name: Seq<u8>) -> i32 {
        0
    }

    /// The code a deciding layer reports when it refuses an option write.
    open spec fn set_opt_refusal(&self, fd: int, level: int, opt: int, len: nat) -> i32 {
        0
    }

    /// The code a deciding layer reports when it refuses an option read.
    open spec fn get_opt_refusal(&self, fd: int, level: int, opt: int, len: nat) -> i32 {
        0
    }

    /// Opens a packet socket: on success, a fresh nonnegative descriptor.
    /// On a modeled layer the descriptor set grows by exactly that
    /// descriptor, and interface flags, interface indices and recorded
    /// options stand as they were, whatever the outcome.
    fn open_packet_socket(&mut self, domain: i32, kind: i32, protocol: i32) -> (r: Result<
        i32,
        i32,
    >)
        ensures
            r matches Ok(fd) ==> fd >= 0,
            old(self).modeled() ==> (r matches Ok(fd) ==> !old(self).open_fds().contains(fd as int)
                && final(self).open_fds() == old(self).open_fds().insert(fd as int)),
            old(self).modeled() && r is Err ==> final(self).open_fds() == old(self).open_fds(),
            old(self).open_ok(domain as int, kind as int, protocol as int) ==> r is Ok,
            old(self).decides() && !old(self).open_ok(domain as int, kind as int, protocol as int)
                ==> r == Err::<i32, i32>(
                old(self).open_refusal(domain as int, kind as int, protocol as int),
            ),
            old(self).modeled() ==> (forall|n: Seq<u8>|
                final(self).iface_flags(n) == old(self).iface_flags(n)),
            old(self).modeled() ==> (forall|n: Seq<u8>|
                final(self).iface_index(n) == old(self).iface_index(n)),
            old(self).modeled() ==> (forall|f: int|
                final(self).sock_options(f) == old(self).sock_options(f)),
    ;

    /// Issues one interface control request on descriptor `fd`. Reading the
    /// flags changes nothing and, on a modeled layer, reports the flags of
    /// the interface the request names; writing the flags, on success,
    /// makes the carried flags word that interface's flags and moves
    /// nothing else. On a modeled layer either request succeeds only while
    /// the named interface exists: one that vanished after construction
    /// fails with an OS error.
    fn ioctl(&mut self, fd: i32, request: u64, req: &IfReq) -> (r: Result<IfReq, i32>)
        requires
            req.wf(),
            request == SIOCGIFFLAGS || request == SIOCSIFFLAGS,
        ensures
            r matches Ok(resp) ==> resp.wf() && resp.ifr_name@ == req.ifr_name@,
            old(self).modeled() && r is Ok ==> old(self).iface_index(c_name(req.ifr_name@)) != 0,
            old(self).ioctl_ok(fd as int, c_name(req.ifr_name@)) ==> r is Ok,
            old(self).decides() && !old(self).ioctl_ok(fd as int, c_name(req.ifr_name@))
                ==> r == Err::<IfReq, i32>(old(self).ioctl_refusal(fd as int, c_name(req.ifr_name@))),
            request == SIOCGIFFLAGS ==> *final(self) == *old(self),
            old(self).modeled() && request == SIOCGIFFLAGS ==> (r matches Ok(resp)
                ==> resp.spec_flags() == old(self).iface_flags(c_name(req.ifr_name@))),
            old(self).modeled() && request == SIOCSIFFLAGS && r is Ok ==> final(self).iface_flags(
                c_name(req.ifr_name@),
            ) == req.spec_flags(),
            old(self).modeled() && request == SIOCSIFFLAGS && r is Ok ==> (forall|n: Seq<u8>|
                n != c_name(req.ifr_name@) ==> final(self).iface_flags(n) == old(self).iface_flags(
                    n,
                )),
            old(self).modeled() && request == SIOCSIFFLAGS && r is Ok ==> (forall|n: Seq<u8>|
                final(self).iface_index(n) == old(self).iface_index(n)),
            old(self).modeled() && request == SIOCSIFFLAGS && r is Ok ==> (forall|f: int|
                final(self).sock_options(f) == old(self).sock_options(f)),
            old(self).modeled() && request == SIOCSIFFLAGS && r is Ok ==> final(self).open_fds()
                == old(self).open_fds(),
            request == SIOCSIFFLAGS && r is Err ==> *final(self) == *old(self),
    ;

    /// Resolves a null-terminated interface name to the interface index:
    /// zero when no interface carries the name, without an error — the
    /// documented quirk of the underlying lookup. On a modeled layer the
    /// result is the model's index for that name.
    fn if_name_to_index(&self, cname: &Vec<u8>) -> (r: u32)
        requires
            cname@.len() >= 1,
            cname@[cname@.len() - 1] == 0,
            forall|i: int| 0 <= i < cname@.len() - 1 ==> cname@[i] != 0,
        ensures
            self.modeled() ==> r == self.iface_index(cname@.take(cname@.len() - 1)),
    ;

    /// Sets one packet-socket option of descriptor `fd` to the exact bytes
    /// of `val`: on success, on a modeled layer, the option store maps
    /// `opt` to those bytes and nothing else moved; on failure nothing
    /// moved.
    fn set_sock_opt(&mut self, fd: i32, level: i32, opt: i32, val: &Vec<u8>) -> (r: Result<
        (),
        i32,
    >)
        ensures
            old(self).modeled() && r is Ok ==> final(self).sock_options(fd as int) == old(
                self,
            ).sock_options(fd as int).insert(opt as int, val@),
            old(self).modeled() && r is Ok ==> (forall|f: int|
                f != fd as int ==> final(self).sock_options(f) == old(self).sock_options(f)),
            old(self).modeled() && r is Ok ==> (forall|n: Seq<u8>|
                final(self).iface_flags(n) == old(self).iface_flags(n)),
            old(self).modeled() && r is Ok ==> (forall|n: Seq<u8>|
                final(self).iface_index(n) == old(self).iface_index(n)),
            old(self).modeled() && r is Ok ==> final(self).open_fds() == old(self).open_fds(),
            old(self).modeled() && r is Ok ==> (forall|f: int, l: int, o: int|
                final(self).get_opt_ok(f, l, o) == old(self).get_opt_ok(f, l, o)),
            old(self).set_opt_ok(fd as int, level as int, opt as int, val@.len()) ==> r is Ok,
            old(self).decides() && !old(self).set_opt_ok(fd as int, level as int, opt as int, val@.len())
                ==> r == Err::<(), i32>(
                old(self).set_opt_refusal(fd as int, level as int, opt as int, val@.len()),
            ),
            r is Err ==> *final(self) == *old(self),
    ;

    /// Reads one packet-socket option of descriptor `fd` into a buffer of
    /// exactly `len` bytes: on success, on a modeled layer, the very bytes
    /// the option store holds for `opt`.
    fn get_sock_opt(&self, fd: i32, level: i32, opt: i32, len: usize) -> (r: Result<Vec<u8>, i32>)
        ensures
            r matches Ok(v) ==> v@.len() == len,
            self.modeled() ==> (r matches Ok(v) ==> self.sock_options(fd as int).contains_key(
                opt as int,
            ) && v@ == self.sock_options(fd as int)[opt as int]),
            self.get_opt_ok(fd as int, level as int, opt as int) && self.sock_options(
                fd as int,
            ).contains_key(opt as int) && self.sock_options(fd as int)[opt as int].len() == len
                ==> r is Ok,
            self.decides() && !(self.get_opt_ok(fd as int, level as int, opt as int)
                && self.sock_options(fd as int).contains_key(opt as int) && self.sock_options(
                fd as int,
            )[opt as int].len() == len) ==> r == Err::<Vec<u8>, i32>(
                self.get_opt_refusal(fd as int, level as int, opt as int, len as nat),
            ),
    ;
}

} // verus!
