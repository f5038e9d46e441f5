//! The control channel: exclusive ownership of the loop-control endpoint and
//! allocation of free device indices.
//!
//! The channel holds exactly one OS resource from a successful open until its
//! release, and release of an already-released channel asks for nothing.

use vstd::prelude::*;

use crate::actions::{Action, IoctlArg};
use crate::errors::{
    allocate_error, control_open_error, spec_allocate_error, spec_control_open_error, LoopError,
};
use crate::path::{device_path, spec_device_path};
use crate::LOOP_CTL_GET_FREE;

verus! {

/// The lifecycle of the control-channel resource.
#[derive(Clone, Copy, Debug, PartialEq, Eq, Structural)]
pub enum ControlState {
    /// The endpoint is open on the given descriptor.
    Open { fd: i32 },
    /// The descriptor has been handed to a close action; nothing is held.
    Released,
}

impl ControlState {
    /// The descriptors the channel currently holds.
    pub open spec fn held_fds(self) -> Seq<int> {
        match self {
            ControlState::Open { fd } => seq![fd as int],
            ControlState::Released => seq![],
        }
    }
}

/// The channel state a control-endpoint open produces: holding the returned
/// descriptor on success, a classified error on failure.
pub open spec fn spec_control_opened(r: Result<i32, i32>) -> Result<ControlState, LoopError> {
    match r {
        Ok(fd) => Ok(ControlState::Open { fd }),
        Err(e) => Err(spec_control_open_error(e)),
    }
}

/// Interprets the outcome of opening the loop-control endpoint read-write.
pub fn control_opened(r: Result<i32, i32>) -> (s: Result<ControlState, LoopError>)
    ensures
        s == spec_control_opened(r),
{
    match r {
        Ok(fd) => Ok(ControlState::Open { fd }),
        Err(e) => Err(control_open_error(e)),
    }
}

impl ControlState {
    /// The request that allocates the next free loop index: the
    /// get-next-free ioctl on the channel's descriptor, with an integer
    /// output argument.
    pub fn allocate_request(&self) -> (a: Action)
        requires
            *self is Open,
        ensures
            (match *self {
                ControlState::Open { fd } => a == (Action::Ioctl {
                    fd,
                    code: LOOP_CTL_GET_FREE,
                    arg: IoctlArg::IntOut,
                }),
                ControlState::Released => false,
            }),
    {
        match self {
            ControlState::Open { fd } => Action::Ioctl {
                fd: *fd,
                code: LOOP_CTL_GET_FREE,
                arg: IoctlArg::IntOut,
            },
            ControlState::Released => Action::Ioctl {
                fd: 0,
                code: LOOP_CTL_GET_FREE,
                arg: IoctlArg::IntOut,
            },
        }
    }

    /// The state and close action of releasing the channel: an open channel
    /// hands its descriptor to one close action; a released one holds
    /// nothing and asks for nothing.
    pub open spec fn spec_release(self) -> (ControlState, Option<Action>) {
        match self {
            ControlState::Open { fd } => (
                ControlState::Released,
                Some(Action::CloseFd { fd }),
            ),
            ControlState::Released => (ControlState::Released, None),
        }
    }

    /// Releases the channel's resource.
    pub fn release(self) -> (r: (ControlState, Option<Action>))
        ensures
            r == self.spec_release(),
    {
        match self {
            ControlState::Open { fd } => (
                ControlState::Released,
                Some(Action::CloseFd { fd }),
            ),
            ControlState::Released => (ControlState::Released, None),
        }
    }
}

/// Turns the outcome of the get-next-free ioctl into a device path: a
/// nonnegative returned index becomes the path of that loop device; a failure
/// is classified.
pub fn next_free_result(r: Result<i32, i32>) -> (out: Result<String, LoopError>)
    ensures
        (match r {
            Ok(n) => {
                &&& n >= 0 ==> (out matches Ok(p) && p@ == spec_device_path(n as nat))
                &&& n < 0 ==> (out matches Err(e) && e == LoopError::OsError(n))
            },
            Err(e) => out matches Err(err) && err == spec_allocate_error(e),
        }),
{
    match r {
        Ok(n) => {
            if n >= 0 {
                Ok(device_path(n as u32))
            } else {
                Err(LoopError::OsError(n))
            }
        },
        Err(e) => Err(allocate_error(e)),
    }
}

/// A successful open holds exactly one OS resource; release hands exactly
/// that descriptor to one close action and holds nothing afterwards; and a
/// second release closes nothing — double release is harmless.
pub proof fn lemma_control_resource_discipline(r: Result<i32, i32>, s: ControlState)
    ensures
        (spec_control_opened(r) matches Ok(st) ==> st.held_fds().len() == 1),
        s.spec_release().0.held_fds().len() == 0,
        (s.spec_release().1 matches Some(a) ==> a matches Action::CloseFd { fd } && s.held_fds()
            =~= seq![fd as int]),
        s is Released ==> s.spec_release() == (ControlState::Released, None::<Action>),
        s.spec_release().0.spec_release() == (ControlState::Released, None::<Action>),
{
}

} // verus!
