//! Low-level model of Linux `AF_PACKET` raw-socket control: opening a raw
//! socket bound to a named network interface, toggling interface flags
//! through the flag ioctls, and getting or setting packet-socket options.
//!
//! The operating system itself is reached through the [`os::OsLayer`] trait.
//! A verified in-memory implementation, [`mock::MockOs`], backs the proofs
//! and the tests; a real implementation making the actual system calls can
//! live outside this library.

pub mod abi;
pub mod err;
pub mod ifreq;
pub mod mock;
pub mod os;
pub mod socket;
