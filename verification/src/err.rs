//! The error taxonomy of this library: two validations performed on an
//! interface name before any OS call, and the OS-reported failure of a call.

use vstd::prelude::*;

verus! {

/// Why an operation of this library failed.
#[derive(Clone, Copy, Debug, PartialEq, Eq, Structural)]
pub enum SockError {
    /// The interface name does not fit the kernel's fixed-size name field.
    InterfaceNameTooLong,
    /// The interface name holds an embedded null byte, which the OS name
    /// encoding forbids.
    InvalidNameEncoding,
    /// An OS call returned a failure; the payload is the OS error code.
    Os(i32),
}

impl SockError {
    /// A short description of the error, for callers that print it.
    pub fn describe(&self) -> (r: &'static str)
        ensures
            self is InterfaceNameTooLong ==> r@ == "interface name too long"@,
            self is InvalidNameEncoding ==> r@ == "interface name holds a null byte"@,
            self is Os ==> r@ == "OS call failed"@,
    {
        match self {
            SockError::InterfaceNameTooLong => "interface name too long",
            SockError::InvalidNameEncoding => "interface name holds a null byte",
            SockError::Os(_) => "OS call failed",
        }
    }
}

} // verus!
