//! Errors of the queue and port bookkeeping, with their errno codes.

use vstd::prelude::*;

verus! {

/// Relies on `libc::EBADF`: the platform's errno code for it; its value
/// differs between platforms, so nothing is stated of it.
#[verifier::external_body]
fn errno_ebadf() -> i32 {
    libc::EBADF
}

/// Relies on `libc::EINVAL`: the platform's errno code for it; its value
/// differs between platforms, so nothing is stated of it.
#[verifier::external_body]
fn errno_einval() -> i32 {
    libc::EINVAL
}

/// Relies on `libc::EADDRINUSE`: the platform's errno code for it; its value
/// differs between platforms, so nothing is stated of it.
#[verifier::external_body]
fn errno_eaddrinuse() -> i32 {
    libc::EADDRINUSE
}

/// A failed bookkeeping operation.
#[derive(Clone, Copy, Debug, PartialEq, Eq, Structural)]
pub enum Fail {
    /// The queue descriptor names no open queue.
    BadQueueDescriptor,
    /// The port lies outside the ephemeral range.
    PortOutOfRange,
    /// The requested ephemeral port is already allocated.
    PortInUse,
    /// Every ephemeral port is allocated.
    PortsExhausted,
    /// The port being released is not allocated.
    PortNotAllocated,
}

impl Fail {
    /// The errno code reported for this failure: `EBADF` for a bad queue
    /// descriptor, `EADDRINUSE` for a port in use or no free port, and
    /// `EINVAL` for a port outside the range or one not allocated.
    pub fn errno(&self) -> i32 {
        match self {
            Fail::BadQueueDescriptor => errno_ebadf(),
            Fail::PortOutOfRange => errno_einval(),
            Fail::PortInUse => errno_eaddrinuse(),
            Fail::PortsExhausted => errno_eaddrinuse(),
            Fail::PortNotAllocated => errno_einval(),
        }
    }

    /// A short description of this failure.
    pub fn cause(&self) -> (r: &'static str)
        ensures
            r@ == match self {
                Fail::BadQueueDescriptor => "invalid queue descriptor"@,
                Fail::PortOutOfRange => "port number not in the ephemeral range"@,
                Fail::PortInUse => "port number in use"@,
                Fail::PortsExhausted => "all port numbers in the ephemeral range are currently in use"@,
                Fail::PortNotAllocated => "port number not allocated"@,
            },
    {
        match self {
            Fail::BadQueueDescriptor => "invalid queue descriptor",
            Fail::PortOutOfRange => "port number not in the ephemeral range",
            Fail::PortInUse => "port number in use",
            Fail::PortsExhausted => "all port numbers in the ephemeral range are currently in use",
            Fail::PortNotAllocated => "port number not allocated",
        }
    }
}

} // verus!
