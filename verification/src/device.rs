//! One device: which event it has registered, and what each operation on it
//! asks of the native side.

use std::time::Duration;
use vstd::prelude::*;
use crate::cooperative_level::CooperativeLevel;
use crate::device_capabilities::{DeviceCapabilities, RawCapabilities};
use crate::device_info::Guid;
use crate::error::{succeeded, DirectInputError, DirectInputStatus, DI_NOEFFECT, E_ACCESSDENIED};
use crate::joy_state::FromDeviceState;
use crate::native::{
    Command, Output, Pending, Reply, Step, WindowHandle, INFINITE, INVALID_HANDLE_VALUE,
    WAIT_OBJECT_0, WAIT_TIMEOUT,
};

verus! {

/// The bookkeeping for one native device: which instance it was opened for,
/// and the one event handle that it owns at most, the one that is registered
/// with the device for state changes.
#[derive(Debug, PartialEq, Eq)]
pub struct Device {
    instance: Guid,
    event: Option<isize>,
}

impl View for Device {
    type V = Option<isize>;

    /// The event that is registered, if one is.
    closed spec fn view(&self) -> Option<isize> {
        self.event
    }
}

/// The whole milliseconds that a duration holds.
pub uninterp spec fn duration_millis(timeout: Duration) -> u128;

/// `Duration::as_millis`: the whole milliseconds that the duration holds.
#[verifier::external_body]
fn as_millis(timeout: &Duration) -> (millis: u128)
    ensures
        millis == duration_millis(*timeout),
{
    timeout.as_millis()
}

/// What a call with nothing to report but its result code comes to.
pub open spec fn unit_outcome(code: i32) -> Result<(), DirectInputError> {
    if code >= 0 {
        Ok(())
    } else {
        Err(DirectInputError::of_code(code))
    }
}

/// What acquiring comes to. The code for a refusal of access means here that
/// another application holds the device with priority.
pub open spec fn acquire_outcome(code: i32) -> Result<(), DirectInputError> {
    if code >= 0 {
        Ok(())
    } else if code == E_ACCESSDENIED {
        Err(DirectInputError::OtherAppHasPrio)
    } else {
        Err(DirectInputError::of_code(code))
    }
}

/// What polling comes to. The code that several statuses share means here
/// that the device needs no polling.
pub open spec fn poll_outcome(code: i32) -> Result<DirectInputStatus, DirectInputError> {
    if code < 0 {
        Err(DirectInputError::of_code(code))
    } else if code == DI_NOEFFECT {
        Ok(DirectInputStatus::NoEffect)
    } else {
        Ok(DirectInputStatus::recognized_or_ok(code))
    }
}

/// What a step of an operation with nothing to report but a result code
/// comes to.
pub open spec fn code_outcome(code: i32) -> Result<Output, DirectInputError> {
    if code >= 0 {
        Ok(Output::Unit)
    } else {
        Err(DirectInputError::of_code(code))
    }
}

/// The result of a wait that ended neither with the event nor with the
/// timeout: the error that the thread reports, and `false` where it has none
/// to report.
pub open spec fn wait_failure(error: u32) -> Result<Output, DirectInputError> {
    if error == 0 {
        Ok(Output::Signaled(false))
    } else {
        Err(DirectInputError::of_code(crate::error::win32_hresult(error) as i32))
    }
}

/// The timeout to hand to the wait: the milliseconds where they fit, the
/// timeout that never expires where they do not.
pub open spec fn wait_timeout(millis: u128) -> u32 {
    if millis <= u32::MAX {
        millis as u32
    } else {
        INFINITE
    }
}

/// What follows when `reply` answers the call `pending` on a device whose
/// registered event is `event`: the event that is registered afterwards, and
/// where the operation stands. A reply that is no answer to the call changes
/// nothing, and the call stays to be made.
pub open spec fn next(event: Option<isize>, pending: Pending, reply: Reply) -> (
    Option<isize>,
    Step,
) {
    match (pending, reply) {
        (Pending::CooperativeLevel { hwnd, flags }, Reply::Code(code)) => (
            event,
            Step::Done(code_outcome(code)),
        ),
        (Pending::ClearNotification { old }, Reply::Code(code)) => (
            event,
            Step::Call(Pending::CloseOld { old, cleared: code }),
        ),
        (Pending::CloseOld { old, cleared }, Reply::Closed) => if cleared >= 0 {
            (event, Step::Call(Pending::CreateEvent))
        } else {
            (event, Step::Done(Err(DirectInputError::of_code(cleared))))
        },
        (Pending::CreateEvent, Reply::Handle(handle)) => if handle == INVALID_HANDLE_VALUE {
            (event, Step::Call(Pending::CreateFailed))
        } else {
            (event, Step::Call(Pending::Register { event: handle }))
        },
        (Pending::CreateFailed, Reply::LastError(error)) => (
            event,
            Step::Done(Err(DirectInputError::of_code(crate::error::win32_hresult(error) as i32))),
        ),
        (Pending::Register { event: created }, Reply::Code(code)) => if code >= 0 {
            (
                Some(created),
                Step::Done(Ok(Output::Status(DirectInputStatus::recognized_or_ok(code)))),
            )
        } else {
            (event, Step::Call(Pending::CloseNew { event: created, failed: code }))
        },
        (Pending::CloseNew { event: created, failed }, Reply::Closed) => (
            event,
            Step::Done(Err(DirectInputError::of_code(failed))),
        ),
        (Pending::EnumAxes { min, max }, Reply::Axis(object)) => (
            event,
            Step::Call(Pending::SetRange { object, min, max }),
        ),
        (Pending::NextAxis { min, max }, Reply::Axis(object)) => (
            event,
            Step::Call(Pending::SetRange { object, min, max }),
        ),
        (Pending::EnumAxes { min, max }, Reply::Code(code)) => (
            event,
            Step::Done(code_outcome(code)),
        ),
        (Pending::NextAxis { min, max }, Reply::Code(code)) => (
            event,
            Step::Done(code_outcome(code)),
        ),
        (Pending::SetRange { object, min, max }, Reply::Code(code)) => (
            event,
            Step::Call(Pending::NextAxis { min, max }),
        ),
        (Pending::Wait { handle, millis }, Reply::Waited(result)) => if result == WAIT_OBJECT_0 {
            (event, Step::Done(Ok(Output::Signaled(true))))
        } else if result == WAIT_TIMEOUT {
            (event, Step::Done(Ok(Output::Signaled(false))))
        } else {
            (event, Step::Call(Pending::WaitFailed))
        },
        (Pending::WaitFailed, Reply::LastError(error)) => (event, Step::Done(wait_failure(error))),
        _ => (event, Step::Call(pending)),
    }
}

/// What registering an event starts with on a device whose registered event
/// is `event`: the device gives the event up, and the registration of an old
/// event is removed before a fresh one is created.
pub open spec fn init_event_start(event: Option<isize>) -> (Option<isize>, Step) {
    match event {
        Some(old) => (None, Step::Call(Pending::ClearNotification { old })),
        None => (None, Step::Call(Pending::CreateEvent)),
    }
}

/// What a wait starts with: nothing to wait for where no event is
/// registered, the wait for the event otherwise.
pub open spec fn wait_start(event: Option<isize>, millis: u128) -> Step {
    match event {
        Some(handle) => Step::Call(Pending::Wait { handle, millis: wait_timeout(millis) }),
        None => Step::Done(Ok(Output::Signaled(true))),
    }
}

/// What binding to a window starts with: the call where the window is a
/// native one, a refusal otherwise.
pub open spec fn cooperative_level_start(window: WindowHandle, flags: u32) -> Step {
    match window {
        WindowHandle::Win32(hwnd) => Step::Call(Pending::CooperativeLevel { hwnd, flags }),
        WindowHandle::Other => Step::Done(Err(DirectInputError::Handle)),
    }
}

/// The calls that end a device's life: access is given up, the interface is
/// released, and the registered event, if there is one, is closed.
pub open spec fn release_plan(event: Option<isize>) -> Seq<Command> {
    match event {
        Some(handle) => seq![Command::Unacquire, Command::Release, Command::CloseHandle(handle)],
        None => seq![Command::Unacquire, Command::Release],
    }
}

impl Device {
    /// The identifier of the instance that the device was opened for.
    pub closed spec fn opened(&self) -> Guid {
        self.instance
    }

    /// The bookkeeping for a device that was just opened for the instance
    /// `instance`: no event is registered.
    pub fn new(instance: Guid) -> (device: Device)
        ensures
            device.opened() == instance,
            device@ is None,
    {
        Device { instance, event: None }
    }

    /// The identifier of the instance that the device was opened for.
    pub fn guid_instance(&self) -> (guid: &Guid)
        ensures
            *guid == self.opened(),
    {
        &self.instance
    }

    /// The event that is registered, if one is.
    pub fn event(&self) -> (event: Option<isize>)
        ensures
            event == self@,
    {
        self.event
    }

    /// The device's capabilities, given what querying them with
    /// `GetCapabilities` came to: the result code, and the record that the
    /// query filled.
    pub fn capabilities(&self, code: i32, caps: RawCapabilities) -> (result: Result<
        DeviceCapabilities,
        DirectInputError,
    >)
        ensures
            code >= 0 ==> result == Ok::<DeviceCapabilities, DirectInputError>(
                DeviceCapabilities::decoded(caps),
            ),
            code < 0 ==> result == Err::<DeviceCapabilities, DirectInputError>(
                DirectInputError::of_code(code),
            ),
    {
        if succeeded(code) {
            Ok(DeviceCapabilities::from_instance(caps))
        } else {
            Err(DirectInputError::from_hresult(code))
        }
    }

    /// Whether the device is ready for use as a joystick, given the result
    /// code of `SetDataFormat` with the joystick layout of two sliders and
    /// four point-of-view hats.
    pub fn init(&mut self, code: i32) -> (result: Result<(), DirectInputError>)
        ensures
            final(self).opened() == old(self).opened(),
            final(self)@ == old(self)@,
            result == unit_outcome(code),
    {
        self.set_data_format(code)
    }

    /// Registers a fresh event for state changes, in place of the one that is
    /// registered, if one is.
    pub fn init_event(&mut self) -> (step: Step)
        ensures
            final(self).opened() == old(self).opened(),
            (final(self)@, step) == init_event_start(old(self)@),
    {
        let old = self.event;
        self.event = None;
        match old {
            Some(old) => Step::Call(Pending::ClearNotification { old }),
            None => Step::Call(Pending::CreateEvent),
        }
    }

    /// Sets the value range of every axis of the device to `min ..= max`.
    pub fn set_axes_range(&mut self, min: i32, max: i32) -> (step: Step)
        ensures
            final(self).opened() == old(self).opened(),
            final(self)@ == old(self)@,
            step == Step::Call(Pending::EnumAxes { min, max }),
    {
        Step::Call(Pending::EnumAxes { min, max })
    }

    /// Whether the device was acquired, given the result code of `Acquire`.
    /// A refusal of access is told apart from every other failure: it means
    /// that another application holds the device with priority.
    pub fn acquire(&self, code: i32) -> (result: Result<(), DirectInputError>)
        ensures
            result == acquire_outcome(code),
    {
        if succeeded(code) {
            Ok(())
        } else if code == E_ACCESSDENIED {
            Err(DirectInputError::OtherAppHasPrio)
        } else {
            Err(DirectInputError::from_hresult(code))
        }
    }

    /// Binds the device to a window, with the access that `flags` asks for.
    pub fn set_cooperative_level(&mut self, window: WindowHandle, flags: CooperativeLevel) -> (step:
        Step)
        ensures
            final(self).opened() == old(self).opened(),
            final(self)@ == old(self)@,
            step == cooperative_level_start(window, flags@),
    {
        match window {
            WindowHandle::Win32(hwnd) => Step::Call(
                Pending::CooperativeLevel { hwnd, flags: flags.bits() },
            ),
            WindowHandle::Other => Step::Done(Err(DirectInputError::Handle)),
        }
    }

    /// Whether the device took the data format, given the result code of
    /// `SetDataFormat`.
    pub fn set_data_format(&mut self, code: i32) -> (result: Result<(), DirectInputError>)
        ensures
            final(self).opened() == old(self).opened(),
            final(self)@ == old(self)@,
            result == unit_outcome(code),
    {
        if succeeded(code) {
            Ok(())
        } else {
            Err(DirectInputError::from_hresult(code))
        }
    }

    /// What polling the device came to, given the result code of `Poll`:
    /// plain success, or no effect on a device that needs no polling, or the
    /// error.
    pub fn poll(&self, code: i32) -> (result: Result<DirectInputStatus, DirectInputError>)
        ensures
            result == poll_outcome(code),
    {
        if !succeeded(code) {
            Err(DirectInputError::from_hresult(code))
        } else if code == DI_NOEFFECT {
            Ok(DirectInputStatus::NoEffect)
        } else {
            Ok(DirectInputStatus::from_hresult_or_ok(code))
        }
    }

    /// The device's state, given what reading it with `GetDeviceState` came
    /// to: the result code, and the layout that the read filled.
    pub fn get_state<T: FromDeviceState>(&self, code: i32, state: T::RawState) -> (result: Result<
        T,
        DirectInputError,
    >)
        ensures
            code >= 0 ==> result == Ok::<T, DirectInputError>(T::decoded(state)),
            code < 0 ==> result == Err::<T, DirectInputError>(DirectInputError::of_code(code)),
    {
        if succeeded(code) {
            Ok(T::from_instance(state))
        } else {
            Err(DirectInputError::from_hresult(code))
        }
    }

    /// Waits for a state change, for at most `timeout`. Without a registered
    /// event there is nothing to wait for, and the wait is over at once.
    pub fn wait(&self, timeout: Duration) -> (step: Step)
        ensures
            step == wait_start(self@, duration_millis(timeout)),
            self@ is None ==> step == Step::Done(Ok(Output::Signaled(true))),
    {
        self.wait_millis(as_millis(&timeout))
    }

    /// Waits for a state change, for at most `millis` milliseconds.
    pub fn wait_millis(&self, millis: u128) -> (step: Step)
        ensures
            step == wait_start(self@, millis),
            self@ is None ==> step == Step::Done(Ok(Output::Signaled(true))),
    {
        match self.event {
            Some(handle) => {
                let millis: u32 = if millis <= 4294967295 {
                    millis as u32
                } else {
                    INFINITE
                };
                Step::Call(Pending::Wait { handle, millis })
            },
            None => Step::Done(Ok(Output::Signaled(true))),
        }
    }

    /// Goes on with an operation after the call that it asked for was made.
    pub fn resume(&mut self, pending: Pending, reply: Reply) -> (step: Step)
        ensures
            final(self).opened() == old(self).opened(),
            (final(self)@, step) == next(old(self)@, pending, reply),
    {
        match (pending, reply) {
            (Pending::CooperativeLevel { hwnd: _, flags: _ }, Reply::Code(code)) => Step::Done(
                code_result(code),
            ),
            (Pending::ClearNotification { old }, Reply::Code(code)) => Step::Call(
                Pending::CloseOld { old, cleared: code },
            ),
            (Pending::CloseOld { old: _, cleared }, Reply::Closed) => {
                if succeeded(cleared) {
                    Step::Call(Pending::CreateEvent)
                } else {
                    Step::Done(Err(DirectInputError::from_hresult(cleared)))
                }
            },
            (Pending::CreateEvent, Reply::Handle(handle)) => {
                if handle == INVALID_HANDLE_VALUE {
                    Step::Call(Pending::CreateFailed)
                } else {
                    Step::Call(Pending::Register { event: handle })
                }
            },
            (Pending::CreateFailed, Reply::LastError(error)) => Step::Done(
                Err(DirectInputError::from_last_error(error)),
            ),
            (Pending::Register { event }, Reply::Code(code)) => {
                if succeeded(code) {
                    self.event = Some(event);
                    Step::Done(Ok(Output::Status(DirectInputStatus::from_hresult_or_ok(code))))
                } else {
                    Step::Call(Pending::CloseNew { event, failed: code })
                }
            },
            (Pending::CloseNew { event: _, failed }, Reply::Closed) => Step::Done(
                Err(DirectInputError::from_hresult(failed)),
            ),
            (Pending::EnumAxes { min, max }, Reply::Axis(object)) => Step::Call(
                Pending::SetRange { object, min, max },
            ),
            (Pending::NextAxis { min, max }, Reply::Axis(object)) => Step::Call(
                Pending::SetRange { object, min, max },
            ),
            (Pending::EnumAxes { min: _, max: _ }, Reply::Code(code)) => Step::Done(
                code_result(code),
            ),
            (Pending::NextAxis { min: _, max: _ }, Reply::Code(code)) => Step::Done(
                code_result(code),
            ),
            (Pending::SetRange { object: _, min, max }, Reply::Code(_)) => Step::Call(
                Pending::NextAxis { min, max },
            ),
            (Pending::Wait { handle: _, millis: _ }, Reply::Waited(result)) => {
                if result == WAIT_OBJECT_0 {
                    Step::Done(Ok(Output::Signaled(true)))
                } else if result == WAIT_TIMEOUT {
                    Step::Done(Ok(Output::Signaled(false)))
                } else {
                    Step::Call(Pending::WaitFailed)
                }
            },
            (Pending::WaitFailed, Reply::LastError(error)) => {
                if error == 0 {
                    Step::Done(Ok(Output::Signaled(false)))
                } else {
                    Step::Done(Err(DirectInputError::from_last_error(error)))
                }
            },
            _ => Step::Call(pending),
        }
    }

    /// Ends the device's life. The calls are to be made in this order, each
    /// whatever came of the one before.
    pub fn release(self) -> (plan: Vec<Command>)
        ensures
            plan@ == release_plan(self@),
    {
        let mut plan: Vec<Command> = Vec::new();
        plan.push(Command::Unacquire);
        plan.push(Command::Release);
        match self.event {
            Some(handle) => {
                plan.push(Command::CloseHandle(handle));
            },
            None => {},
        }
        plan
    }
}

/// What a step with nothing to report but a result code comes to.
fn code_result(code: i32) -> (result: Result<Output, DirectInputError>)
    ensures
        result == code_outcome(code),
{
    if succeeded(code) {
        Ok(Output::Unit)
    } else {
        Err(DirectInputError::from_hresult(code))
    }
}

} // verus!
