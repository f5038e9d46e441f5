use losetup_rs::errors::{
    allocate_error, attach_error, backing_open_error, control_open_error, detach_error,
    device_open_error, status_error, LoopError, EACCES, EBUSY, ENODEV, ENOENT, ENOSYS, ENOTTY,
    ENXIO, EPERM,
};
use losetup_rs::path::{decimal_string, device_path};

#[test]
fn decimal_rendering_has_no_leading_zeros_and_no_sign() {
    assert_eq!(decimal_string(0), "0");
    assert_eq!(decimal_string(7), "7");
    assert_eq!(decimal_string(10), "10");
    assert_eq!(decimal_string(255), "255");
    assert_eq!(decimal_string(1000), "1000");
    assert_eq!(decimal_string(u32::MAX), "4294967295");
}

#[test]
fn device_paths_concatenate_prefix_and_index() {
    assert_eq!(device_path(0), "/dev/loop0");
    assert_eq!(device_path(1), "/dev/loop1");
    assert_eq!(device_path(31), "/dev/loop31");
    assert_eq!(device_path(100), "/dev/loop100");
}

#[test]
fn control_open_errors_cover_the_taxonomy() {
    assert_eq!(control_open_error(ENOENT), LoopError::DeviceUnavailable);
    assert_eq!(control_open_error(EPERM), LoopError::PermissionDenied);
    assert_eq!(control_open_error(EACCES), LoopError::PermissionDenied);
    assert_eq!(control_open_error(ENODEV), LoopError::Unsupported);
    assert_eq!(control_open_error(ENOSYS), LoopError::Unsupported);
    assert_eq!(control_open_error(ENOTTY), LoopError::Unsupported);
    assert_eq!(control_open_error(99), LoopError::OsError(99));
}

#[test]
fn allocation_errors_are_busy_denied_or_passed_through() {
    assert_eq!(allocate_error(EBUSY), LoopError::AllResourcesBusy);
    assert_eq!(allocate_error(EPERM), LoopError::PermissionDenied);
    assert_eq!(allocate_error(12), LoopError::OsError(12));
}

#[test]
fn open_failures_distinguish_device_and_backing_file() {
    assert_eq!(device_open_error(ENOENT), LoopError::DeviceOpenFailed);
    assert_eq!(device_open_error(ENXIO), LoopError::DeviceOpenFailed);
    assert_eq!(device_open_error(EACCES), LoopError::PermissionDenied);
    assert_eq!(backing_open_error(ENOENT), LoopError::BackingFileOpenFailed);
    assert_eq!(backing_open_error(EPERM), LoopError::PermissionDenied);
}

#[test]
fn ioctl_failures_are_classified_per_operation() {
    assert_eq!(attach_error(EBUSY), LoopError::AttachRejected);
    assert_eq!(attach_error(EACCES), LoopError::PermissionDenied);
    assert_eq!(attach_error(22), LoopError::OsError(22));
    assert_eq!(detach_error(EBUSY), LoopError::DetachRejected);
    assert_eq!(detach_error(ENXIO), LoopError::DetachRejected);
    assert_eq!(detach_error(EPERM), LoopError::PermissionDenied);
    assert_eq!(detach_error(22), LoopError::OsError(22));
    assert_eq!(status_error(ENXIO), LoopError::NotAttached);
    assert_eq!(status_error(EACCES), LoopError::PermissionDenied);
    assert_eq!(status_error(22), LoopError::OsError(22));
}
