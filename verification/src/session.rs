//! Per-device operations, each as a small state machine over one device path:
//! attach a backing file, detach it, query status.
//!
//! Every operation opens its own short-lived handle to the device node, acts,
//! and closes everything it opened before reaching its final state — on the
//! success path and on every failure path alike. Each machine state names the
//! one OS action to perform next; `step` consumes that action's raw outcome.

use vstd::prelude::*;

use crate::actions::{Action, IoctlArg};
use crate::errors::{
    attach_error, backing_open_error, detach_error, device_open_error, spec_attach_error,
    spec_backing_open_error, spec_detach_error, spec_device_open_error, spec_status_error,
    status_error, LoopError,
};
use crate::{LOOP_CLR_FD, LOOP_GET_STATUS64, LOOP_SET_FD};

verus! {

/// The attach protocol: open the device node, open the backing file, issue
/// the set-backing-descriptor ioctl, then close both descriptors whatever the
/// ioctl said.
#[derive(Clone, Copy, Debug)]
pub enum AttachState {
    /// Waiting to open the loop device node read-write.
    OpenDevice,
    /// Waiting to open the backing file read-write.
    OpenBacking { loop_fd: i32 },
    /// Waiting on the set-backing-descriptor ioctl.
    SetBacking { loop_fd: i32, file_fd: i32 },
    /// Waiting to close the backing file descriptor; the operation's verdict
    /// is already fixed.
    CloseBacking { loop_fd: i32, file_fd: i32, pending: Result<(), LoopError> },
    /// Waiting to close the device descriptor; the operation's verdict is
    /// already fixed.
    CloseDevice { loop_fd: i32, pending: Result<(), LoopError> },
    /// Finished; nothing is held.
    Done { result: Result<(), LoopError> },
}

impl AttachState {
    /// The descriptors the machine still holds, in the order they were
    /// opened.
    pub open spec fn held_fds(self) -> Seq<int> {
        match self {
            AttachState::OpenDevice => seq![],
            AttachState::OpenBacking { loop_fd } => seq![loop_fd as int],
            AttachState::SetBacking { loop_fd, file_fd } => seq![loop_fd as int, file_fd as int],
            AttachState::CloseBacking { loop_fd, file_fd, .. } => seq![
                loop_fd as int,
                file_fd as int,
            ],
            AttachState::CloseDevice { loop_fd, .. } => seq![loop_fd as int],
            AttachState::Done { .. } => seq![],
        }
    }

    /// The one OS action the machine asks for next; none once finished.
    pub open spec fn action(self) -> Option<Action> {
        match self {
            AttachState::OpenDevice => Some(Action::OpenDeviceNode),
            AttachState::OpenBacking { .. } => Some(Action::OpenBackingFile),
            AttachState::SetBacking { loop_fd, file_fd } => Some(
                Action::Ioctl { fd: loop_fd, code: LOOP_SET_FD, arg: IoctlArg::Fd(file_fd) },
            ),
            AttachState::CloseBacking { file_fd, .. } => Some(Action::CloseFd { fd: file_fd }),
            AttachState::CloseDevice { loop_fd, .. } => Some(Action::CloseFd { fd: loop_fd }),
            AttachState::Done { .. } => None,
        }
    }

    /// How many steps the machine may still take.
    pub open spec fn remaining(self) -> nat {
        match self {
            AttachState::OpenDevice => 5,
            AttachState::OpenBacking { .. } => 4,
            AttachState::SetBacking { .. } => 3,
            AttachState::CloseBacking { .. } => 2,
            AttachState::CloseDevice { .. } => 1,
            AttachState::Done { .. } => 0,
        }
    }

    /// The state after the pending action's outcome comes back. A failure to
    /// open the device finishes at once; a failure to open the backing file
    /// still closes the device descriptor first; the ioctl's verdict — the
    /// kernel accepted, or rejected with an errno value — is carried through
    /// both closes unchanged.
    pub open spec fn spec_step(self, r: Result<i32, i32>) -> AttachState {
        match self {
            AttachState::OpenDevice => match r {
                Ok(fd) => AttachState::OpenBacking { loop_fd: fd },
                Err(e) => AttachState::Done { result: Err(spec_device_open_error(e)) },
            },
            AttachState::OpenBacking { loop_fd } => match r {
                Ok(fd) => AttachState::SetBacking { loop_fd, file_fd: fd },
                Err(e) => AttachState::CloseDevice {
                    loop_fd,
                    pending: Err(spec_backing_open_error(e)),
                },
            },
            AttachState::SetBacking { loop_fd, file_fd } => match r {
                Ok(_) => AttachState::CloseBacking { loop_fd, file_fd, pending: Ok(()) },
                Err(e) => AttachState::CloseBacking {
                    loop_fd,
                    file_fd,
                    pending: Err(spec_attach_error(e)),
                },
            },
            AttachState::CloseBacking { loop_fd, file_fd, pending } => AttachState::CloseDevice {
                loop_fd,
                pending,
            },
            AttachState::CloseDevice { loop_fd, pending } => AttachState::Done { result: pending },
            AttachState::Done { result } => AttachState::Done { result },
        }
    }

    /// A fresh attach machine, about to open the device node.
    pub fn start() -> (s: Self)
        ensures
            s == AttachState::OpenDevice,
    {
        AttachState::OpenDevice
    }

    /// The one OS action to perform next; none once finished.
    pub fn next_action(&self) -> (a: Option<Action>)
        ensures
            a == self.action(),
    {
        match self {
            AttachState::OpenDevice => Some(Action::OpenDeviceNode),
            AttachState::OpenBacking { .. } => Some(Action::OpenBackingFile),
            AttachState::SetBacking { loop_fd, file_fd } => Some(
                Action::Ioctl { fd: *loop_fd, code: LOOP_SET_FD, arg: IoctlArg::Fd(*file_fd) },
            ),
            AttachState::CloseBacking { file_fd, .. } => Some(Action::CloseFd { fd: *file_fd }),
            AttachState::CloseDevice { loop_fd, .. } => Some(Action::CloseFd { fd: *loop_fd }),
            AttachState::Done { .. } => None,
        }
    }

    /// Advances the machine on the outcome of its pending action.
    pub fn step(self, r: Result<i32, i32>) -> (s: Self)
        ensures
            s == self.spec_step(r),
    {
        match self {
            AttachState::OpenDevice => match r {
                Ok(fd) => AttachState::OpenBacking { loop_fd: fd },
                Err(e) => AttachState::Done { result: Err(device_open_error(e)) },
            },
            AttachState::OpenBacking { loop_fd } => match r {
                Ok(fd) => AttachState::SetBacking { loop_fd, file_fd: fd },
                Err(e) => AttachState::CloseDevice {
                    loop_fd,
                    pending: Err(backing_open_error(e)),
                },
            },
            AttachState::SetBacking { loop_fd, file_fd } => match r {
                Ok(_) => AttachState::CloseBacking { loop_fd, file_fd, pending: Ok(()) },
                Err(e) => AttachState::CloseBacking {
                    loop_fd,
                    file_fd,
                    pending: Err(attach_error(e)),
                },
            },
            AttachState::CloseBacking { loop_fd, file_fd: _, pending } => AttachState::CloseDevice {
                loop_fd,
                pending,
            },
            AttachState::CloseDevice { loop_fd: _, pending } => AttachState::Done {
                result: pending,
            },
            AttachState::Done { result } => AttachState::Done { result },
        }
    }

    /// The operation's verdict, once the machine has finished.
    pub fn outcome(&self) -> (r: Option<Result<(), LoopError>>)
        ensures
            (match *self {
                AttachState::Done { result } => r == Some(result),
                _ => r is None,
            }),
    {
        match self {
            AttachState::Done { result } => Some(*result),
            _ => None,
        }
    }
}

/// The attach machine never leaks and never double-closes: a close is only
/// ever requested for the most recently opened descriptor still held, and
/// stepping past it drops exactly that one; a successful open adds exactly
/// the returned descriptor; an ioctl changes nothing held; a finished machine
/// holds nothing.
pub proof fn lemma_attach_resource_discipline(s: AttachState, r: Result<i32, i32>)
    ensures
        s is Done ==> s.held_fds() =~= Seq::<int>::empty(),
        (s.action() matches Some(Action::CloseFd { fd }) ==> s.held_fds().len() > 0
            && s.held_fds().last() == fd as int && s.spec_step(r).held_fds() =~= s.held_fds().drop_last()),
        (s.action() matches Some(Action::Ioctl { .. }) ==> s.spec_step(r).held_fds() =~= s.held_fds()),
        ((s.action() matches Some(Action::OpenDeviceNode) || s.action() matches Some(
            Action::OpenBackingFile,
        )) ==> (match r {
            Ok(fd) => s.spec_step(r).held_fds() =~= s.held_fds().push(fd as int),
            Err(_) => s.spec_step(r).held_fds() =~= s.held_fds(),
        })),
{
}

/// The attach protocol finishes: each step strictly lowers the number of
/// steps remaining until the machine is done, and it needs at most five.
pub proof fn lemma_attach_terminates(s: AttachState, r: Result<i32, i32>)
    ensures
        !(s is Done) ==> s.spec_step(r).remaining() < s.remaining(),
        s.remaining() <= 5,
        s is Done <==> s.remaining() == 0,
{
}

/// An attach run: the machine advanced over a sequence of outcomes, one per
/// step.
pub open spec fn run_attach(s: AttachState, evs: Seq<Result<i32, i32>>) -> AttachState
    decreases evs.len(),
{
    if evs.len() == 0 {
        s
    } else {
        run_attach(s.spec_step(evs[0]), evs.drop_first())
    }
}

/// However the system calls go, enough outcomes finish an attach, and the
/// finished machine holds no descriptor: no run leaks.
pub proof fn lemma_attach_run_finishes(s: AttachState, evs: Seq<Result<i32, i32>>)
    requires
        evs.len() >= s.remaining(),
    ensures
        run_attach(s, evs) is Done,
        run_attach(s, evs).held_fds() =~= Seq::<int>::empty(),
    decreases evs.len(),
{
    if evs.len() > 0 {
        lemma_attach_terminates(s, evs[0]);
        lemma_attach_run_finishes(s.spec_step(evs[0]), evs.drop_first());
    }
}

/// The detach protocol: open the device node, issue the
/// clear-backing-descriptor ioctl, and close the device descriptor even when
/// the clear failed — the clear's verdict is still reported afterwards.
#[derive(Clone, Copy, Debug)]
pub enum DetachState {
    /// Waiting to open the loop device node read-write.
    OpenDevice,
    /// Waiting on the clear-backing-descriptor ioctl.
    ClearBacking { loop_fd: i32 },
    /// Waiting to close the device descriptor; the operation's verdict is
    /// already fixed.
    CloseDevice { loop_fd: i32, pending: Result<(), LoopError> },
    /// Finished; nothing is held.
    Done { result: Result<(), LoopError> },
}

impl DetachState {
    /// The descriptors the machine still holds.
    pub open spec fn held_fds(self) -> Seq<int> {
        match self {
            DetachState::OpenDevice => seq![],
            DetachState::ClearBacking { loop_fd } => seq![loop_fd as int],
            DetachState::CloseDevice { loop_fd, .. } => seq![loop_fd as int],
            DetachState::Done { .. } => seq![],
        }
    }

    /// The one OS action the machine asks for next; none once finished.
    pub open spec fn action(self) -> Option<Action> {
        match self {
            DetachState::OpenDevice => Some(Action::OpenDeviceNode),
            DetachState::ClearBacking { loop_fd } => Some(
                Action::Ioctl { fd: loop_fd, code: LOOP_CLR_FD, arg: IoctlArg::NoArg },
            ),
            DetachState::CloseDevice { loop_fd, .. } => Some(Action::CloseFd { fd: loop_fd }),
            DetachState::Done { .. } => None,
        }
    }

    /// How many steps the machine may still take.
    pub open spec fn remaining(self) -> nat {
        match self {
            DetachState::OpenDevice => 3,
            DetachState::ClearBacking { .. } => 2,
            DetachState::CloseDevice { .. } => 1,
            DetachState::Done { .. } => 0,
        }
    }

    /// The state after the pending action's outcome comes back.
    pub open spec fn spec_step(self, r: Result<i32, i32>) -> DetachState {
        match self {
            DetachState::OpenDevice => match r {
                Ok(fd) => DetachState::ClearBacking { loop_fd: fd },
                Err(e) => DetachState::Done { result: Err(spec_device_open_error(e)) },
            },
            DetachState::ClearBacking { loop_fd } => match r {
                Ok(_) => DetachState::CloseDevice { loop_fd, pending: Ok(()) },
                Err(e) => DetachState::CloseDevice {
                    loop_fd,
                    pending: Err(spec_detach_error(e)),
                },
            },
            DetachState::CloseDevice { loop_fd, pending } => DetachState::Done { result: pending },
            DetachState::Done { result } => DetachState::Done { result },
        }
    }

    /// A fresh detach machine, about to open the device node.
    pub fn start() -> (s: Self)
        ensures
            s == DetachState::OpenDevice,
    {
        DetachState::OpenDevice
    }

    /// The one OS action to perform next; none once finished.
    pub fn next_action(&self) -> (a: Option<Action>)
        ensures
            a == self.action(),
    {
        match self {
            DetachState::OpenDevice => Some(Action::OpenDeviceNode),
            DetachState::ClearBacking { loop_fd } => Some(
                Action::Ioctl { fd: *loop_fd, code: LOOP_CLR_FD, arg: IoctlArg::NoArg },
            ),
            DetachState::CloseDevice { loop_fd, .. } => Some(Action::CloseFd { fd: *loop_fd }),
            DetachState::Done { .. } => None,
        }
    }

    /// Advances the machine on the outcome of its pending action.
    pub fn step(self, r: Result<i32, i32>) -> (s: Self)
        ensures
            s == self.spec_step(r),
    {
        match self {
            DetachState::OpenDevice => match r {
                Ok(fd) => DetachState::ClearBacking { loop_fd: fd },
                Err(e) => DetachState::Done { result: Err(device_open_error(e)) },
            },
            DetachState::ClearBacking { loop_fd } => match r {
                Ok(_) => DetachState::CloseDevice { loop_fd, pending: Ok(()) },
                Err(e) => DetachState::CloseDevice { loop_fd, pending: Err(detach_error(e)) },
            },
            DetachState::CloseDevice { loop_fd: _, pending } => DetachState::Done {
                result: pending,
            },
            DetachState::Done { result } => DetachState::Done { result },
        }
    }

    /// The operation's verdict, once the machine has finished.
    pub fn outcome(&self) -> (r: Option<Result<(), LoopError>>)
        ensures
            (match *self {
                DetachState::Done { result } => r == Some(result),
                _ => r is None,
            }),
    {
        match self {
            DetachState::Done { result } => Some(*result),
            _ => None,
        }
    }
}

/// The detach machine never leaks and never double-closes, and it closes the
/// device descriptor even when the clear-backing ioctl failed.
pub proof fn lemma_detach_resource_discipline(s: DetachState, r: Result<i32, i32>)
    ensures
        s is Done ==> s.held_fds() =~= Seq::<int>::empty(),
        (s.action() matches Some(Action::CloseFd { fd }) ==> s.held_fds().len() > 0
            && s.held_fds().last() == fd as int && s.spec_step(r).held_fds() =~= s.held_fds().drop_last()),
        (s.action() matches Some(Action::Ioctl { .. }) ==> s.spec_step(r).held_fds() =~= s.held_fds()),
        (s.action() matches Some(Action::OpenDeviceNode) ==> (match r {
            Ok(fd) => s.spec_step(r).held_fds() =~= s.held_fds().push(fd as int),
            Err(_) => s.spec_step(r).held_fds() =~= s.held_fds(),
        })),
{
}

/// The detach protocol finishes in at most three steps.
pub proof fn lemma_detach_terminates(s: DetachState, r: Result<i32, i32>)
    ensures
        !(s is Done) ==> s.spec_step(r).remaining() < s.remaining(),
        s.remaining() <= 3,
        s is Done <==> s.remaining() == 0,
{
}

/// A detach run: the machine advanced over a sequence of outcomes, one per
/// step.
pub open spec fn run_detach(s: DetachState, evs: Seq<Result<i32, i32>>) -> DetachState
    decreases evs.len(),
{
    if evs.len() == 0 {
        s
    } else {
        run_detach(s.spec_step(evs[0]), evs.drop_first())
    }
}

/// However the system calls go, enough outcomes finish a detach, and the
/// finished machine holds no descriptor: no run leaks.
pub proof fn lemma_detach_run_finishes(s: DetachState, evs: Seq<Result<i32, i32>>)
    requires
        evs.len() >= s.remaining(),
    ensures
        run_detach(s, evs) is Done,
        run_detach(s, evs).held_fds() =~= Seq::<int>::empty(),
    decreases evs.len(),
{
    if evs.len() > 0 {
        lemma_detach_terminates(s, evs[0]);
        lemma_detach_run_finishes(s.spec_step(evs[0]), evs.drop_first());
    }
}

/// The status-query protocol: open the device node, issue the get-status
/// ioctl into a zero-filled 232-byte buffer the runner owns, and close the
/// device descriptor on every path — success included — before finishing.
#[derive(Clone, Copy, Debug)]
pub enum StatusState {
    /// Waiting to open the loop device node read-write.
    OpenDevice,
    /// Waiting on the get-status ioctl filling the runner's buffer.
    GetStatus { loop_fd: i32 },
    /// Waiting to close the device descriptor; whether the buffer was filled
    /// is already fixed.
    CloseDevice { loop_fd: i32, pending: Result<(), LoopError> },
    /// Finished; nothing is held. On success the runner's buffer holds the
    /// record's wire image, ready to decode.
    Done { result: Result<(), LoopError> },
}

impl StatusState {
    /// The descriptors the machine still holds.
    pub open spec fn held_fds(self) -> Seq<int> {
        match self {
            StatusState::OpenDevice => seq![],
            StatusState::GetStatus { loop_fd } => seq![loop_fd as int],
            StatusState::CloseDevice { loop_fd, .. } => seq![loop_fd as int],
            StatusState::Done { .. } => seq![],
        }
    }

    /// The one OS action the machine asks for next; none once finished.
    pub open spec fn action(self) -> Option<Action> {
        match self {
            StatusState::OpenDevice => Some(Action::OpenDeviceNode),
            StatusState::GetStatus { loop_fd } => Some(
                Action::Ioctl { fd: loop_fd, code: LOOP_GET_STATUS64, arg: IoctlArg::StatusBuf },
            ),
            StatusState::CloseDevice { loop_fd, .. } => Some(Action::CloseFd { fd: loop_fd }),
            StatusState::Done { .. } => None,
        }
    }

    /// How many steps the machine may still take.
    pub open spec fn remaining(self) -> nat {
        match self {
            StatusState::OpenDevice => 3,
            StatusState::GetStatus { .. } => 2,
            StatusState::CloseDevice { .. } => 1,
            StatusState::Done { .. } => 0,
        }
    }

    /// The state after the pending action's outcome comes back. A device
    /// with no backing file reports the no-such-device-or-address errno, so
    /// such a query finishes as `NotAttached`.
    pub open spec fn spec_step(self, r: Result<i32, i32>) -> StatusState {
        match self {
            StatusState::OpenDevice => match r {
                Ok(fd) => StatusState::GetStatus { loop_fd: fd },
                Err(e) => StatusState::Done { result: Err(spec_device_open_error(e)) },
            },
            StatusState::GetStatus { loop_fd } => match r {
                Ok(_) => StatusState::CloseDevice { loop_fd, pending: Ok(()) },
                Err(e) => StatusState::CloseDevice {
                    loop_fd,
                    pending: Err(spec_status_error(e)),
                },
            },
            StatusState::CloseDevice { loop_fd, pending } => StatusState::Done { result: pending },
            StatusState::Done { result } => StatusState::Done { result },
        }
    }

    /// A fresh status machine, about to open the device node.
    pub fn start() -> (s: Self)
        ensures
            s == StatusState::OpenDevice,
    {
        StatusState::OpenDevice
    }

    /// The one OS action to perform next; none once finished.
    pub fn next_action(&self) -> (a: Option<Action>)
        ensures
            a == self.action(),
    {
        match self {
            StatusState::OpenDevice => Some(Action::OpenDeviceNode),
            StatusState::GetStatus { loop_fd } => Some(
                Action::Ioctl { fd: *loop_fd, code: LOOP_GET_STATUS64, arg: IoctlArg::StatusBuf },
            ),
            StatusState::CloseDevice { loop_fd, .. } => Some(Action::CloseFd { fd: *loop_fd }),
            StatusState::Done { .. } => None,
        }
    }

    /// Advances the machine on the outcome of its pending action.
    pub fn step(self, r: Result<i32, i32>) -> (s: Self)
        ensures
            s == self.spec_step(r),
    {
        match self {
            StatusState::OpenDevice => match r {
                Ok(fd) => StatusState::GetStatus { loop_fd: fd },
                Err(e) => StatusState::Done { result: Err(device_open_error(e)) },
            },
            StatusState::GetStatus { loop_fd } => match r {
                Ok(_) => StatusState::CloseDevice { loop_fd, pending: Ok(()) },
                Err(e) => StatusState::CloseDevice { loop_fd, pending: Err(status_error(e)) },
            },
            StatusState::CloseDevice { loop_fd: _, pending } => StatusState::Done {
                result: pending,
            },
            StatusState::Done { result } => StatusState::Done { result },
        }
    }

    /// The operation's verdict, once the machine has finished.
    pub fn outcome(&self) -> (r: Option<Result<(), LoopError>>)
        ensures
            (match *self {
                StatusState::Done { result } => r == Some(result),
                _ => r is None,
            }),
    {
        match self {
            StatusState::Done { result } => Some(*result),
            _ => None,
        }
    }
}

/// The status machine never leaks and never double-closes: the handle is
/// closed on every path, the success path included.
pub proof fn lemma_status_resource_discipline(s: StatusState, r: Result<i32, i32>)
    ensures
        s is Done ==> s.held_fds() =~= Seq::<int>::empty(),
        (s.action() matches Some(Action::CloseFd { fd }) ==> s.held_fds().len() > 0
            && s.held_fds().last() == fd as int && s.spec_step(r).held_fds() =~= s.held_fds().drop_last()),
        (s.action() matches Some(Action::Ioctl { .. }) ==> s.spec_step(r).held_fds() =~= s.held_fds()),
        (s.action() matches Some(Action::OpenDeviceNode) ==> (match r {
            Ok(fd) => s.spec_step(r).held_fds() =~= s.held_fds().push(fd as int),
            Err(_) => s.spec_step(r).held_fds() =~= s.held_fds(),
        })),
{
}

/// The status protocol finishes in at most three steps.
pub proof fn lemma_status_terminates(s: StatusState, r: Result<i32, i32>)
    ensures
        !(s is Done) ==> s.spec_step(r).remaining() < s.remaining(),
        s.remaining() <= 3,
        s is Done <==> s.remaining() == 0,
{
}

/// A status run: the machine advanced over a sequence of outcomes, one per
/// step.
pub open spec fn run_status(s: StatusState, evs: Seq<Result<i32, i32>>) -> StatusState
    decreases evs.len(),
{
    if evs.len() == 0 {
        s
    } else {
        run_status(s.spec_step(evs[0]), evs.drop_first())
    }
}

/// However the system calls go, enough outcomes finish a status query, and
/// the finished machine holds no descriptor: no run leaks.
pub proof fn lemma_status_run_finishes(s: StatusState, evs: Seq<Result<i32, i32>>)
    requires
        evs.len() >= s.remaining(),
    ensures
        run_status(s, evs) is Done,
        run_status(s, evs).held_fds() =~= Seq::<int>::empty(),
    decreases evs.len(),
{
    if evs.len() > 0 {
        lemma_status_terminates(s, evs[0]);
        lemma_status_run_finishes(s.spec_step(evs[0]), evs.drop_first());
    }
}

} // verus!
