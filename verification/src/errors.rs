//! The error taxonomy, and the classification of raw OS error codes into it.
//!
//! Every failing system call yields an errno value; each operation maps that
//! value to a typed error. The mapping is total and exact: each classifier's
//! contract states, if and only if, which code yields which error.

use vstd::prelude::*;

verus! {

/// Errno value for "operation not permitted".
pub const EPERM: i32 = 1;

/// Errno value for "no such file or directory".
pub const ENOENT: i32 = 2;

/// Errno value for "no such device or address".
pub const ENXIO: i32 = 6;

/// Errno value for "permission denied".
pub const EACCES: i32 = 13;

/// Errno value for "device or resource busy".
pub const EBUSY: i32 = 16;

/// Errno value for "no such device".
pub const ENODEV: i32 = 19;

/// Errno value for "inappropriate ioctl for device".
pub const ENOTTY: i32 = 25;

/// Errno value for "function not implemented".
pub const ENOSYS: i32 = 38;

/// A typed failure of a loop-device operation.
///
/// Every failure from an underlying OS call is mapped to one of these kinds;
/// codes with no specific mapping fall through to `OsError` carrying the raw
/// errno value.
#[derive(Clone, Copy, Debug, PartialEq, Eq, Structural)]
pub enum LoopError {
    /// The loop-control endpoint does not exist.
    DeviceUnavailable,
    /// The caller lacks the privilege for the operation.
    PermissionDenied,
    /// The system does not support loop devices.
    Unsupported,
    /// No free loop device index is available.
    AllResourcesBusy,
    /// The loop device node could not be opened.
    DeviceOpenFailed,
    /// The backing file could not be opened.
    BackingFileOpenFailed,
    /// The kernel refused to associate the backing file, e.g. because the
    /// device is already in use.
    AttachRejected,
    /// The kernel refused to clear the backing file, e.g. because the device
    /// is still referenced elsewhere.
    DetachRejected,
    /// The device has no backing file bound, so there is no status to report.
    NotAttached,
    /// Any other OS failure, carrying the raw errno value.
    OsError(i32),
}

/// How a failure to open the loop-control endpoint is classified.
pub open spec fn spec_control_open_error(errno: i32) -> LoopError {
    if errno == ENOENT {
        LoopError::DeviceUnavailable
    } else if errno == EPERM || errno == EACCES {
        LoopError::PermissionDenied
    } else if errno == ENODEV || errno == ENOSYS || errno == ENOTTY {
        LoopError::Unsupported
    } else {
        LoopError::OsError(errno)
    }
}

/// Classifies a failure to open the loop-control endpoint.
pub fn control_open_error(errno: i32) -> (e: LoopError)
    ensures
        e == spec_control_open_error(errno),
{
    if errno == ENOENT {
        LoopError::DeviceUnavailable
    } else if errno == EPERM || errno == EACCES {
        LoopError::PermissionDenied
    } else if errno == ENODEV || errno == ENOSYS || errno == ENOTTY {
        LoopError::Unsupported
    } else {
        LoopError::OsError(errno)
    }
}

/// How a failure of the next-free-index request is classified.
pub open spec fn spec_allocate_error(errno: i32) -> LoopError {
    if errno == EBUSY {
        LoopError::AllResourcesBusy
    } else if errno == EPERM || errno == EACCES {
        LoopError::PermissionDenied
    } else {
        LoopError::OsError(errno)
    }
}

/// Classifies a failure of the next-free-index request.
pub fn allocate_error(errno: i32) -> (e: LoopError)
    ensures
        e == spec_allocate_error(errno),
{
    if errno == EBUSY {
        LoopError::AllResourcesBusy
    } else if errno == EPERM || errno == EACCES {
        LoopError::PermissionDenied
    } else {
        LoopError::OsError(errno)
    }
}

/// How a failure to open a loop device node is classified.
pub open spec fn spec_device_open_error(errno: i32) -> LoopError {
    if errno == EPERM || errno == EACCES {
        LoopError::PermissionDenied
    } else {
        LoopError::DeviceOpenFailed
    }
}

/// Classifies a failure to open a loop device node.
pub fn device_open_error(errno: i32) -> (e: LoopError)
    ensures
        e == spec_device_open_error(errno),
{
    if errno == EPERM || errno == EACCES {
        LoopError::PermissionDenied
    } else {
        LoopError::DeviceOpenFailed
    }
}

/// How a failure to open the backing file is classified.
pub open spec fn spec_backing_open_error(errno: i32) -> LoopError {
    if errno == EPERM || errno == EACCES {
        LoopError::PermissionDenied
    } else {
        LoopError::BackingFileOpenFailed
    }
}

/// Classifies a failure to open the backing file.
pub fn backing_open_error(errno: i32) -> (e: LoopError)
    ensures
        e == spec_backing_open_error(errno),
{
    if errno == EPERM || errno == EACCES {
        LoopError::PermissionDenied
    } else {
        LoopError::BackingFileOpenFailed
    }
}

/// How a failure of the set-backing-descriptor operation is classified.
pub open spec fn spec_attach_error(errno: i32) -> LoopError {
    if errno == EBUSY {
        LoopError::AttachRejected
    } else if errno == EPERM || errno == EACCES {
        LoopError::PermissionDenied
    } else {
        LoopError::OsError(errno)
    }
}

/// Classifies a failure of the set-backing-descriptor operation.
pub fn attach_error(errno: i32) -> (e: LoopError)
    ensures
        e == spec_attach_error(errno),
{
    if errno == EBUSY {
        LoopError::AttachRejected
    } else if errno == EPERM || errno == EACCES {
        LoopError::PermissionDenied
    } else {
        LoopError::OsError(errno)
    }
}

/// How a failure of the clear-backing-descriptor operation is classified.
pub open spec fn spec_detach_error(errno: i32) -> LoopError {
    if errno == EBUSY || errno == ENXIO {
        LoopError::DetachRejected
    } else if errno == EPERM || errno == EACCES {
        LoopError::PermissionDenied
    } else {
        LoopError::OsError(errno)
    }
}

/// Classifies a failure of the clear-backing-descriptor operation.
pub fn detach_error(errno: i32) -> (e: LoopError)
    ensures
        e == spec_detach_error(errno),
{
    if errno == EBUSY || errno == ENXIO {
        LoopError::DetachRejected
    } else if errno == EPERM || errno == EACCES {
        LoopError::PermissionDenied
    } else {
        LoopError::OsError(errno)
    }
}

/// How a failure of the get-status operation is classified. A device with no
/// backing file bound reports "no such device or address".
pub open spec fn spec_status_error(errno: i32) -> LoopError {
    if errno == ENXIO {
        LoopError::NotAttached
    } else if errno == EPERM || errno == EACCES {
        LoopError::PermissionDenied
    } else {
        LoopError::OsError(errno)
    }
}

/// Classifies a failure of the get-status operation.
pub fn status_error(errno: i32) -> (e: LoopError)
    ensures
        e == spec_status_error(errno),
{
    if errno == ENXIO {
        LoopError::NotAttached
    } else if errno == EPERM || errno == EACCES {
        LoopError::PermissionDenied
    } else {
        LoopError::OsError(errno)
    }
}

} // verus!
