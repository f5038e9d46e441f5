//! The operations the protocol machines ask their runner to perform.
//!
//! The machines never touch the OS themselves: each non-final state names one
//! `Action`, the runner performs it and feeds back the raw outcome — the
//! descriptor or return value on success, the errno value on failure.

use vstd::prelude::*;

verus! {

/// The argument handed along with a device ioctl request.
#[derive(Clone, Copy, Debug, PartialEq, Eq, Structural)]
pub enum IoctlArg {
    /// No argument.
    NoArg,
    /// A file descriptor passed by value.
    Fd(i32),
    /// An output parameter for an integer result.
    IntOut,
    /// A pointer to a 232-byte status record buffer the kernel fills.
    StatusBuf,
}

/// One OS operation a protocol machine asks for.
#[derive(Clone, Copy, Debug, PartialEq, Eq, Structural)]
pub enum Action {
    /// Open the loop device node of the session, read-write.
    OpenDeviceNode,
    /// Open the backing file of the session, read-write.
    OpenBackingFile,
    /// Issue the ioctl with the given code and argument on the descriptor.
    Ioctl { fd: i32, code: u64, arg: IoctlArg },
    /// Close the descriptor.
    CloseFd { fd: i32 },
}

} // verus!
