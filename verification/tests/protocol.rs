use losetup_rs::actions::{Action, IoctlArg};
use losetup_rs::control::{next_free_result, control_opened, ControlState};
use losetup_rs::errors::{LoopError, EACCES, EBUSY, ENOENT, ENXIO};
use losetup_rs::info::{name_field, LoopInfo64};
use losetup_rs::session::{AttachState, DetachState, StatusState};
use losetup_rs::{LOOP_CLR_FD, LOOP_CTL_GET_FREE, LOOP_GET_STATUS64, LOOP_SET_FD};

#[test]
fn control_open_holds_one_resource_and_release_is_idempotent() {
    let state = control_opened(Ok(9)).unwrap();
    assert_eq!(state, ControlState::Open { fd: 9 });
    let (released, action) = state.release();
    assert_eq!(action, Some(Action::CloseFd { fd: 9 }));
    assert_eq!(released, ControlState::Released);
    // Releasing again closes nothing: no descriptor is handed out twice.
    let (again, action) = released.release();
    assert_eq!(action, None);
    assert_eq!(again, ControlState::Released);
}

#[test]
fn control_open_failure_is_classified() {
    assert_eq!(control_opened(Err(ENOENT)).unwrap_err(), LoopError::DeviceUnavailable);
    assert_eq!(control_opened(Err(EACCES)).unwrap_err(), LoopError::PermissionDenied);
}

#[test]
fn allocate_request_names_the_get_free_ioctl() {
    let state = control_opened(Ok(4)).unwrap();
    assert_eq!(
        state.allocate_request(),
        Action::Ioctl { fd: 4, code: LOOP_CTL_GET_FREE, arg: IoctlArg::IntOut }
    );
}

#[test]
fn next_free_on_a_fresh_system_is_loop_zero() {
    // The kernel's get-next-free on a system with no loop device in use
    // returns index 0.
    assert_eq!(next_free_result(Ok(0)).unwrap(), "/dev/loop0");
}

#[test]
fn next_free_formats_the_returned_index() {
    assert_eq!(next_free_result(Ok(7)).unwrap(), "/dev/loop7");
    assert_eq!(next_free_result(Ok(130)).unwrap(), "/dev/loop130");
}

#[test]
fn next_free_failure_is_classified() {
    assert_eq!(next_free_result(Err(EBUSY)).unwrap_err(), LoopError::AllResourcesBusy);
    assert_eq!(next_free_result(Err(5)).unwrap_err(), LoopError::OsError(5));
}

/// Drives an attach run, recording the actions performed, with the given
/// outcomes for the device open, the backing-file open, and the ioctl.
fn run_attach(
    open_device: Result<i32, i32>,
    open_backing: Result<i32, i32>,
    ioctl: Result<i32, i32>,
) -> (Vec<Action>, Result<(), LoopError>) {
    let mut actions = Vec::new();
    let mut state = AttachState::start();
    loop {
        match state.next_action() {
            None => return (actions, state.outcome().unwrap()),
            Some(action) => {
                actions.push(action);
                let outcome = match action {
                    Action::OpenDeviceNode => open_device,
                    Action::OpenBackingFile => open_backing,
                    Action::Ioctl { .. } => ioctl,
                    Action::CloseFd { .. } => Ok(0),
                };
                state = state.step(outcome);
            }
        }
    }
}

#[test]
fn attach_success_issues_the_protocol_in_order() {
    let (actions, result) = run_attach(Ok(10), Ok(11), Ok(0));
    assert_eq!(result, Ok(()));
    assert_eq!(
        actions,
        vec![
            Action::OpenDeviceNode,
            Action::OpenBackingFile,
            Action::Ioctl { fd: 10, code: LOOP_SET_FD, arg: IoctlArg::Fd(11) },
            Action::CloseFd { fd: 11 },
            Action::CloseFd { fd: 10 },
        ]
    );
}

#[test]
fn attach_to_a_bound_device_is_rejected() {
    // The kernel refuses a second backing file with the busy errno; both
    // descriptors are still closed.
    let (actions, result) = run_attach(Ok(10), Ok(11), Err(EBUSY));
    assert_eq!(result, Err(LoopError::AttachRejected));
    assert_eq!(actions[3], Action::CloseFd { fd: 11 });
    assert_eq!(actions[4], Action::CloseFd { fd: 10 });
}

#[test]
fn attach_to_a_missing_device_fails_cleanly() {
    // A nonexistent device path fails at the open with no descriptor ever
    // held, so there is nothing to close.
    let (actions, result) = run_attach(Err(ENOENT), Ok(11), Ok(0));
    assert_eq!(result, Err(LoopError::DeviceOpenFailed));
    assert_eq!(actions, vec![Action::OpenDeviceNode]);
}

#[test]
fn attach_closes_the_device_when_the_backing_file_is_missing() {
    let (actions, result) = run_attach(Ok(10), Err(ENOENT), Ok(0));
    assert_eq!(result, Err(LoopError::BackingFileOpenFailed));
    assert_eq!(
        actions,
        vec![Action::OpenDeviceNode, Action::OpenBackingFile, Action::CloseFd { fd: 10 }]
    );
}

#[test]
fn attach_permission_failures_are_classified() {
    let (_, result) = run_attach(Err(EACCES), Ok(11), Ok(0));
    assert_eq!(result, Err(LoopError::PermissionDenied));
    let (_, result) = run_attach(Ok(10), Ok(11), Err(EACCES));
    assert_eq!(result, Err(LoopError::PermissionDenied));
}

/// Drives a detach run with the given outcomes for the open and the ioctl.
fn run_detach(
    open_device: Result<i32, i32>,
    ioctl: Result<i32, i32>,
) -> (Vec<Action>, Result<(), LoopError>) {
    let mut actions = Vec::new();
    let mut state = DetachState::start();
    loop {
        match state.next_action() {
            None => return (actions, state.outcome().unwrap()),
            Some(action) => {
                actions.push(action);
                let outcome = match action {
                    Action::Ioctl { .. } => ioctl,
                    Action::CloseFd { .. } => Ok(0),
                    _ => open_device,
                };
                state = state.step(outcome);
            }
        }
    }
}

#[test]
fn detach_issues_clear_then_close() {
    let (actions, result) = run_detach(Ok(12), Ok(0));
    assert_eq!(result, Ok(()));
    assert_eq!(
        actions,
        vec![
            Action::OpenDeviceNode,
            Action::Ioctl { fd: 12, code: LOOP_CLR_FD, arg: IoctlArg::NoArg },
            Action::CloseFd { fd: 12 },
        ]
    );
}

#[test]
fn detach_closes_the_device_even_when_the_clear_fails() {
    let (actions, result) = run_detach(Ok(12), Err(EBUSY));
    assert_eq!(result, Err(LoopError::DetachRejected));
    assert_eq!(actions[2], Action::CloseFd { fd: 12 });
}

/// Drives a status run with the given outcomes for the open and the ioctl.
fn run_status(
    open_device: Result<i32, i32>,
    ioctl: Result<i32, i32>,
) -> (Vec<Action>, Result<(), LoopError>) {
    let mut actions = Vec::new();
    let mut state = StatusState::start();
    loop {
        match state.next_action() {
            None => return (actions, state.outcome().unwrap()),
            Some(action) => {
                actions.push(action);
                let outcome = match action {
                    Action::Ioctl { .. } => ioctl,
                    Action::CloseFd { .. } => Ok(0),
                    _ => open_device,
                };
                state = state.step(outcome);
            }
        }
    }
}

#[test]
fn status_closes_the_handle_on_the_success_path_too() {
    let (actions, result) = run_status(Ok(13), Ok(0));
    assert_eq!(result, Ok(()));
    assert_eq!(
        actions,
        vec![
            Action::OpenDeviceNode,
            Action::Ioctl { fd: 13, code: LOOP_GET_STATUS64, arg: IoctlArg::StatusBuf },
            Action::CloseFd { fd: 13 },
        ]
    );
}

#[test]
fn status_of_an_unbound_device_is_not_attached() {
    let (actions, result) = run_status(Ok(13), Err(ENXIO));
    assert_eq!(result, Err(LoopError::NotAttached));
    assert_eq!(actions[2], Action::CloseFd { fd: 13 });
}

#[test]
fn status_of_a_missing_device_fails_to_open() {
    let (actions, result) = run_status(Err(ENOENT), Ok(0));
    assert_eq!(result, Err(LoopError::DeviceOpenFailed));
    assert_eq!(actions, vec![Action::OpenDeviceNode]);
}

/// The full session against a simulated kernel: allocate the first free
/// device, attach a backing file, see its name in the status record, detach,
/// and attach a different file to the now-free device.
#[test]
fn full_session_reuses_the_device_after_detach() {
    // A fresh system: the control channel allocates index 0.
    let control = control_opened(Ok(3)).unwrap();
    assert_eq!(
        control.allocate_request(),
        Action::Ioctl { fd: 3, code: LOOP_CTL_GET_FREE, arg: IoctlArg::IntOut }
    );
    let device = next_free_result(Ok(0)).unwrap();
    assert_eq!(device, "/dev/loop0");

    // Attach a 10 MiB backing file.
    let backing = "/tmp/backing.img";
    let (_, attached) = run_attach(Ok(10), Ok(11), Ok(0));
    assert_eq!(attached, Ok(()));

    // The kernel reports the backing file's name in the status record, and
    // offset and size limit keep their unconfigured defaults of zero.
    let (_, queried) = run_status(Ok(12), Ok(0));
    assert_eq!(queried, Ok(()));
    let mut image = LoopInfo64::default();
    image.lo_file_name = name_field(backing);
    let record = LoopInfo64::decode(&image.encode());
    assert!(record.file_name_matches(backing));
    assert_eq!(record.lo_offset, 0);
    assert_eq!(record.lo_sizelimit, 0);

    // A second attach without detach is rejected by the kernel as busy.
    let (_, rebound) = run_attach(Ok(13), Ok(14), Err(EBUSY));
    assert_eq!(rebound, Err(LoopError::AttachRejected));

    // After a detach the device is unbound: status reports not-attached, and
    // a fresh attach of a different file succeeds.
    let (_, detached) = run_detach(Ok(15), Ok(0));
    assert_eq!(detached, Ok(()));
    let (_, after) = run_status(Ok(16), Err(ENXIO));
    assert_eq!(after, Err(LoopError::NotAttached));
    let (_, reattached) = run_attach(Ok(17), Ok(18), Ok(0));
    assert_eq!(reattached, Ok(()));

    let (_, closed) = control.release();
    assert_eq!(closed, Some(Action::CloseFd { fd: 3 }));
}
