//! The words in which the library and the native side talk to each other.
//!
//! The library never calls the operating system. It names the call to make
//! as a [`Command`]; whoever drives it makes the call and hands back what
//! came of it as a [`Reply`].

use vstd::prelude::*;
use crate::error::{DirectInputError, DirectInputStatus};

verus! {

/// The value that stands for "no handle" where a handle was asked for.
pub const INVALID_HANDLE_VALUE: isize = -1;

/// What a wait returns when the event was signaled.
pub const WAIT_OBJECT_0: u32 = 0;

/// What a wait returns when the timeout ran out before the event was
/// signaled.
pub const WAIT_TIMEOUT: u32 = 258;

/// The timeout that never expires.
pub const INFINITE: u32 = 4294967295;

/// The object types that are axes, absolute or relative.
pub const DIDFT_AXIS: u32 = 3;

/// An object is named by the identifier that its enumeration reported.
pub const DIPH_BYID: u32 = 2;

/// A window as the windowing system hands it out.
#[derive(Clone, Copy, Debug, PartialEq, Eq, Structural)]
pub enum WindowHandle {
    /// A native window of this platform, by its handle.
    Win32(isize),
    /// A window of any other kind.
    Other,
}

/// One call on the native side.
#[derive(Clone, Copy, Debug, PartialEq, Eq, Structural)]
pub enum Command {
    /// Register the event for state changes, or with `None` remove the
    /// registration.
    SetEventNotification(Option<isize>),
    /// Create an event without a name. It resets itself once a wait on it is
    /// over unless `manual_reset`, and starts out signaled only if
    /// `signaled`.
    CreateEvent { manual_reset: bool, signaled: bool },
    /// Close the handle.
    CloseHandle(isize),
    /// Read the calling thread's last error code.
    GetLastError,
    /// Start to enumerate the objects of the device that are of one of the
    /// types in `filter`.
    EnumObjects { filter: u32 },
    /// Let the enumeration go on to the next object.
    NextAxis,
    /// Set the value range of the object that `object` names in the way that
    /// `how` says.
    SetRange { object: u32, how: u32, min: i32, max: i32 },
    /// Bind the device to the window with these flags.
    SetCooperativeLevel { hwnd: isize, flags: u32 },
    /// Give up access to the device.
    Unacquire,
    /// Wait for the event, for at most so many milliseconds.
    WaitForSingleObject { handle: isize, millis: u32 },
    /// Release the device's interface.
    Release,
}

/// What came of one call.
#[derive(Clone, Copy, Debug, PartialEq, Eq, Structural)]
pub enum Reply {
    /// The result code of a call on the device.
    Code(i32),
    /// The handle that creating an event returned.
    Handle(isize),
    /// The handle was closed; no result is looked at.
    Closed,
    /// What the wait returned.
    Waited(u32),
    /// The thread's last error code.
    LastError(u32),
    /// The enumeration found an axis: the identifier of the object.
    Axis(u32),
}

/// What an operation hands to its caller when it succeeds.
#[derive(Clone, Copy, Debug, PartialEq, Eq, Structural)]
pub enum Output {
    /// Nothing but the fact.
    Unit,
    /// The nuance of the success.
    Status(DirectInputStatus),
    /// Whether the event was signaled before the timeout ran out.
    Signaled(bool),
}

/// A call that is under way, and what the operation remembers across it.
#[derive(Clone, Copy, Debug, PartialEq, Eq, Structural)]
pub enum Pending {
    /// The registration of the event `old` is being removed.
    ClearNotification { old: isize },
    /// `old` is being closed, after its registration was removed with the
    /// result `cleared`.
    CloseOld { old: isize, cleared: i32 },
    /// A fresh event is being created.
    CreateEvent,
    /// No event could be created; the reason is being read.
    CreateFailed,
    /// The fresh event is being registered.
    Register { event: isize },
    /// The fresh event is being closed, after its registration failed with
    /// the result `failed`.
    CloseNew { event: isize, failed: i32 },
    /// The enumeration of the axes is being started.
    EnumAxes { min: i32, max: i32 },
    /// The range of one axis is being set.
    SetRange { object: u32, min: i32, max: i32 },
    /// The enumeration of the axes is going on.
    NextAxis { min: i32, max: i32 },
    /// The cooperative level is being set.
    CooperativeLevel { hwnd: isize, flags: u32 },
    /// The event is being waited for.
    Wait { handle: isize, millis: u32 },
    /// The wait ended neither with the event nor with the timeout; the
    /// reason is being read.
    WaitFailed,
}

/// Where an operation stands: either a call is to be made for it, or it is
/// over.
#[derive(Clone, Copy, Debug, PartialEq, Eq)]
pub enum Step {
    /// Make the call that `Pending` names, then resume with the reply.
    Call(Pending),
    /// The operation is over, with this result.
    Done(Result<Output, DirectInputError>),
}

impl Pending {
    /// The call to make.
    pub open spec fn call(self) -> Command {
        match self {
            Pending::ClearNotification { old } => Command::SetEventNotification(None),
            Pending::CloseOld { old, cleared } => Command::CloseHandle(old),
            Pending::CreateEvent => Command::CreateEvent { manual_reset: false, signaled: false },
            Pending::CreateFailed => Command::GetLastError,
            Pending::Register { event } => Command::SetEventNotification(Some(event)),
            Pending::CloseNew { event, failed } => Command::CloseHandle(event),
            Pending::EnumAxes { min, max } => Command::EnumObjects { filter: DIDFT_AXIS },
            Pending::SetRange { object, min, max } => Command::SetRange {
                object,
                how: DIPH_BYID,
                min,
                max,
            },
            Pending::NextAxis { min, max } => Command::NextAxis,
            Pending::CooperativeLevel { hwnd, flags } => Command::SetCooperativeLevel {
                hwnd,
                flags,
            },
            Pending::Wait { handle, millis } => Command::WaitForSingleObject { handle, millis },
            Pending::WaitFailed => Command::GetLastError,
        }
    }

    /// Whether `reply` is an answer to the call.
    pub open spec fn answered_by(self, reply: Reply) -> bool {
        match self {
            Pending::CloseOld { .. } | Pending::CloseNew { .. } => reply is Closed,
            Pending::CreateEvent => reply is Handle,
            Pending::CreateFailed | Pending::WaitFailed => reply is LastError,
            Pending::Wait { .. } => reply is Waited,
            Pending::EnumAxes { .. } | Pending::NextAxis { .. } => reply is Axis || reply is Code,
            _ => reply is Code,
        }
    }

    /// The call to make.
    pub fn command(&self) -> (command: Command)
        ensures
            command == self.call(),
    {
        match *self {
            Pending::ClearNotification { old: _ } => Command::SetEventNotification(None),
            Pending::CloseOld { old, cleared: _ } => Command::CloseHandle(old),
            Pending::CreateEvent => Command::CreateEvent { manual_reset: false, signaled: false },
            Pending::CreateFailed => Command::GetLastError,
            Pending::Register { event } => Command::SetEventNotification(Some(event)),
            Pending::CloseNew { event, failed: _ } => Command::CloseHandle(event),
            Pending::EnumAxes { min: _, max: _ } => Command::EnumObjects { filter: DIDFT_AXIS },
            Pending::SetRange { object, min, max } => Command::SetRange {
                object,
                how: DIPH_BYID,
                min,
                max,
            },
            Pending::NextAxis { min: _, max: _ } => Command::NextAxis,
            Pending::CooperativeLevel { hwnd, flags } => Command::SetCooperativeLevel {
                hwnd,
                flags,
            },
            Pending::Wait { handle, millis } => Command::WaitForSingleObject { handle, millis },
            Pending::WaitFailed => Command::GetLastError,
        }
    }
}

} // verus!
