use std::time::Duration;

use directinput::error::{DIERR_INPUTLOST, DIERR_NOTACQUIRED, DIERR_NOTINITIALIZED, E_ACCESSDENIED};
use directinput::{
    Command, CooperativeLevel, Device, DeviceCapabilities, DirectInputError, DirectInputManager,
    DirectInputStatus, Guid, JoyState, Output, Pending, RawCapabilities, RawDeviceInstance,
    RawJoyState, Reply, Step, WindowHandle,
};

const INSTANCE: Guid = Guid { data1: 1, data2: 2, data3: 3, data4: [4; 8] };
const CREATE_EVENT: Command = Command::CreateEvent { manual_reset: false, signaled: false };
const ENUM_AXES: Command = Command::EnumObjects { filter: 3 };

/// A native side made of counters: it hands out handles, remembers which are
/// open, and answers every call as it was told to.
struct FakeNative {
    next_handle: isize,
    open: Vec<isize>,
    closed: Vec<isize>,
    calls: Vec<Command>,
    registered: Option<isize>,
    clear_code: i32,
    register_code: i32,
    create_fails: bool,
    last_error: u32,
    wait_result: u32,
    axes: Vec<u32>,
    range_codes: Vec<i32>,
    ranges: Vec<(u32, i32, i32)>,
    enum_code: i32,
    axis_cursor: usize,
    level_code: i32,
}

impl FakeNative {
    fn new() -> Self {
        FakeNative {
            next_handle: 100,
            open: Vec::new(),
            closed: Vec::new(),
            calls: Vec::new(),
            registered: None,
            clear_code: 0,
            register_code: 0,
            create_fails: false,
            last_error: 0,
            wait_result: 0,
            axes: Vec::new(),
            range_codes: Vec::new(),
            ranges: Vec::new(),
            enum_code: 0,
            axis_cursor: 0,
            level_code: 0,
        }
    }

    fn next_axis(&mut self) -> Reply {
        if self.axis_cursor < self.axes.len() {
            Reply::Axis(self.axes[self.axis_cursor])
        } else {
            Reply::Code(self.enum_code)
        }
    }

    fn perform(&mut self, command: Command) -> Reply {
        self.calls.push(command);
        match command {
            Command::SetEventNotification(None) => {
                if self.clear_code >= 0 {
                    self.registered = None;
                }
                Reply::Code(self.clear_code)
            }
            Command::SetEventNotification(Some(handle)) => {
                assert!(self.open.contains(&handle), "registered a handle that is not open");
                if self.register_code >= 0 {
                    self.registered = Some(handle);
                }
                Reply::Code(self.register_code)
            }
            Command::CreateEvent { manual_reset, signaled } => {
                assert!(!manual_reset && !signaled);
                if self.create_fails {
                    Reply::Handle(-1)
                } else {
                    let handle = self.next_handle;
                    self.next_handle += 1;
                    self.open.push(handle);
                    Reply::Handle(handle)
                }
            }
            Command::CloseHandle(handle) => {
                let at = self.open.iter().position(|&h| h == handle);
                let at = at.expect("closed a handle that is not open");
                self.open.remove(at);
                self.closed.push(handle);
                Reply::Closed
            }
            Command::GetLastError => Reply::LastError(self.last_error),
            Command::EnumObjects { filter } => {
                assert_eq!(filter, 3);
                self.axis_cursor = 0;
                self.next_axis()
            }
            Command::NextAxis => self.next_axis(),
            Command::SetRange { object, how, min, max } => {
                assert_eq!(how, 2);
                let code = self.range_codes[self.axis_cursor];
                if code >= 0 {
                    self.ranges.push((object, min, max));
                }
                self.axis_cursor += 1;
                Reply::Code(code)
            }
            Command::SetCooperativeLevel { .. } => Reply::Code(self.level_code),
            Command::WaitForSingleObject { .. } => Reply::Waited(self.wait_result),
            Command::Unacquire => Reply::Code(DIERR_NOTACQUIRED),
            Command::Release => Reply::Closed,
        }
    }
}

fn drive(
    device: &mut Device,
    native: &mut FakeNative,
    mut step: Step,
) -> Result<Output, DirectInputError> {
    for _ in 0..1000 {
        match step {
            Step::Done(result) => return result,
            Step::Call(pending) => {
                let reply = native.perform(pending.command());
                step = device.resume(pending, reply);
            }
        }
    }
    panic!("the operation did not come to an end");
}

fn registered_device(native: &mut FakeNative) -> Device {
    let mut device = Device::new(INSTANCE);
    let step = device.init_event();
    let result = drive(&mut device, native, step);
    assert_eq!(result, Ok(Output::Status(DirectInputStatus::Success)));
    native.calls.clear();
    device
}

fn zero_state() -> RawJoyState {
    RawJoyState {
        lX: 0,
        lY: 0,
        lZ: 0,
        lRx: 0,
        lRy: 0,
        lRz: 0,
        rglSlider: [0; 2],
        rgdwPOV: [0; 4],
        rgbButtons: [0; 128],
        lVX: 0,
        lVY: 0,
        lVZ: 0,
        lVRx: 0,
        lVRy: 0,
        lVRz: 0,
        rglVSlider: [0; 2],
        lAX: 0,
        lAY: 0,
        lAZ: 0,
        lARx: 0,
        lARy: 0,
        lARz: 0,
        rglASlider: [0; 2],
        lFX: 0,
        lFY: 0,
        lFZ: 0,
        lFRx: 0,
        lFRy: 0,
        lFRz: 0,
        rglFSlider: [0; 2],
    }
}

#[test]
fn test_create() {
    let dll_instance: isize = 0x0040_0000;
    let manager =
        DirectInputManager::new(dll_instance, 0, true).expect("Failed to initialize manager");
    let found = vec![RawDeviceInstance {
        dwSize: 1100,
        guidInstance: Guid { data1: 1, data2: 2, data3: 3, data4: [4; 8] },
        guidProduct: Guid { data1: 5, data2: 6, data3: 7, data4: [8; 8] },
        dwDevType: 0x0114,
        tszInstanceName: [0x41; 260],
        tszProductName: [0; 260],
        guidFFDriver: Guid { data1: 0, data2: 0, data3: 0, data4: [0; 8] },
        wUsagePage: 1,
        wUsage: 4,
    }];
    let devices = manager.enum_devices(0, &found).expect("Failed to enumerate devices");

    if let Some(device) = devices.first() {
        let mut native = FakeNative::new();
        let mut device = manager
            .create_device(device, 0, true)
            .expect("Failed to create device instance");
        assert_eq!(*device.guid_instance(), INSTANCE);

        let step = device.init_event();
        drive(&mut device, &mut native, step).expect("Failed to initialize event");
        device.init(0).expect("Failed to initialize device");
        let step = device.wait(Duration::from_secs(5));
        drive(&mut device, &mut native, step).expect("Failed to wait for event");

        let state = device
            .get_state::<JoyState>(0, zero_state())
            .expect("Failed to get device state");
        println!("state: {:#?}", state);
    }
}

#[test]
fn a_new_device_has_no_event() {
    let device = Device::new(INSTANCE);
    assert_eq!(device.event(), None);
}

#[test]
fn the_first_event_is_created_and_registered() {
    let mut native = FakeNative::new();
    let mut device = Device::new(INSTANCE);
    let step = device.init_event();
    assert_eq!(step, Step::Call(Pending::CreateEvent));
    let result = drive(&mut device, &mut native, step);
    assert_eq!(result, Ok(Output::Status(DirectInputStatus::Success)));
    assert_eq!(
        native.calls,
        vec![CREATE_EVENT, Command::SetEventNotification(Some(100))]
    );
    assert_eq!(device.event(), Some(100));
    assert_eq!(native.open, vec![100]);
    assert_eq!(native.registered, Some(100));
}

#[test]
fn a_polled_device_is_told_apart() {
    let mut native = FakeNative::new();
    native.register_code = 2;
    let mut device = Device::new(INSTANCE);
    let step = device.init_event();
    let result = drive(&mut device, &mut native, step);
    assert_eq!(result, Ok(Output::Status(DirectInputStatus::PolledDevice)));
    assert_eq!(device.event(), Some(100));
}

#[test]
fn replacing_an_event_closes_the_old_one_only() {
    let mut native = FakeNative::new();
    let mut device = registered_device(&mut native);
    assert_eq!(device.event(), Some(100));

    let step = device.init_event();
    assert_eq!(device.event(), None);
    assert_eq!(step, Step::Call(Pending::ClearNotification { old: 100 }));
    let result = drive(&mut device, &mut native, step);

    assert_eq!(result, Ok(Output::Status(DirectInputStatus::Success)));
    assert_eq!(
        native.calls,
        vec![
            Command::SetEventNotification(None),
            Command::CloseHandle(100),
            CREATE_EVENT,
            Command::SetEventNotification(Some(101)),
        ]
    );
    assert_eq!(native.closed, vec![100]);
    assert_eq!(native.open, vec![101]);
    assert_eq!(device.event(), Some(101));
}

#[test]
fn many_replacements_leave_one_handle_open() {
    let mut native = FakeNative::new();
    let mut device = registered_device(&mut native);
    for round in 0..20 {
        let step = device.init_event();
        drive(&mut device, &mut native, step).unwrap();
        assert_eq!(native.open, vec![101 + round]);
        assert_eq!(device.event(), Some(101 + round));
    }
    assert_eq!(native.closed.len(), 20);
}

#[test]
fn a_failed_removal_still_closes_the_old_event() {
    let mut native = FakeNative::new();
    let mut device = registered_device(&mut native);
    native.clear_code = DIERR_NOTINITIALIZED;

    let step = device.init_event();
    let result = drive(&mut device, &mut native, step);

    assert_eq!(result, Err(DirectInputError::NotInitialized));
    assert_eq!(
        native.calls,
        vec![Command::SetEventNotification(None), Command::CloseHandle(100)]
    );
    assert!(native.open.is_empty());
    assert_eq!(device.event(), None);
}

#[test]
fn an_event_that_cannot_be_created_is_reported_with_the_last_error() {
    let mut native = FakeNative::new();
    native.create_fails = true;
    native.last_error = 14;
    let mut device = Device::new(INSTANCE);

    let step = device.init_event();
    let result = drive(&mut device, &mut native, step);

    assert_eq!(result, Err(DirectInputError::OutOfMemory));
    assert_eq!(native.calls, vec![CREATE_EVENT, Command::GetLastError]);
    assert_eq!(device.event(), None);
    assert!(native.open.is_empty());
}

#[test]
fn an_event_that_cannot_be_registered_is_closed() {
    let mut native = FakeNative::new();
    let mut device = registered_device(&mut native);
    native.register_code = DIERR_INPUTLOST;

    let step = device.init_event();
    let result = drive(&mut device, &mut native, step);

    assert_eq!(result, Err(DirectInputError::InputLost));
    assert_eq!(
        native.calls,
        vec![
            Command::SetEventNotification(None),
            Command::CloseHandle(100),
            CREATE_EVENT,
            Command::SetEventNotification(Some(101)),
            Command::CloseHandle(101),
        ]
    );
    assert_eq!(native.closed, vec![100, 101]);
    assert!(native.open.is_empty());
    assert_eq!(device.event(), None);
}

#[test]
fn waiting_without_an_event_is_over_at_once() {
    let device = Device::new(INSTANCE);
    for timeout in [
        Duration::ZERO,
        Duration::from_millis(1),
        Duration::from_secs(5),
        Duration::MAX,
    ] {
        assert_eq!(device.wait(timeout), Step::Done(Ok(Output::Signaled(true))));
    }
    for millis in [0u128, 1, 4294967295, 4294967296, u128::MAX] {
        assert_eq!(device.wait_millis(millis), Step::Done(Ok(Output::Signaled(true))));
    }
}

#[test]
fn waiting_asks_for_the_registered_event_and_the_timeout_in_milliseconds() {
    let mut native = FakeNative::new();
    let device = registered_device(&mut native);
    assert_eq!(
        device.wait(Duration::from_secs(5)),
        Step::Call(Pending::Wait { handle: 100, millis: 5000 })
    );
    assert_eq!(
        device.wait(Duration::ZERO),
        Step::Call(Pending::Wait { handle: 100, millis: 0 })
    );
    assert_eq!(
        device.wait(Duration::from_micros(1999)),
        Step::Call(Pending::Wait { handle: 100, millis: 1 })
    );
    assert_eq!(
        device.wait(Duration::from_millis(4294967294)),
        Step::Call(Pending::Wait { handle: 100, millis: 4294967294 })
    );
    assert_eq!(
        device.wait(Duration::from_millis(4294967296)),
        Step::Call(Pending::Wait { handle: 100, millis: 4294967295 })
    );
    assert_eq!(
        device.wait(Duration::MAX),
        Step::Call(Pending::Wait { handle: 100, millis: 4294967295 })
    );
    assert_eq!(
        Pending::Wait { handle: 100, millis: 5000 }.command(),
        Command::WaitForSingleObject { handle: 100, millis: 5000 }
    );
}

#[test]
fn a_signaled_event_ends_the_wait_with_true() {
    let mut native = FakeNative::new();
    let mut device = registered_device(&mut native);
    native.wait_result = 0;
    let step = device.wait(Duration::from_millis(25));
    assert_eq!(drive(&mut device, &mut native, step), Ok(Output::Signaled(true)));
    assert_eq!(
        native.calls,
        vec![Command::WaitForSingleObject { handle: 100, millis: 25 }]
    );
    assert_eq!(device.event(), Some(100));
}

#[test]
fn a_timeout_is_false_and_no_error() {
    for stale in [0u32, 5, 6, 30, 0x8000_4005, u32::MAX] {
        let mut native = FakeNative::new();
        let mut device = registered_device(&mut native);
        native.wait_result = 258;
        native.last_error = stale;
        let step = device.wait(Duration::from_millis(25));
        assert_eq!(drive(&mut device, &mut native, step), Ok(Output::Signaled(false)));
        assert_eq!(
            native.calls,
            vec![Command::WaitForSingleObject { handle: 100, millis: 25 }]
        );
        assert_eq!(device.event(), Some(100));
    }
}

#[test]
fn a_timeout_ends_the_wait_at_once() {
    let mut native = FakeNative::new();
    let mut device = registered_device(&mut native);
    let pending = Pending::Wait { handle: 100, millis: 25 };
    assert_eq!(
        device.resume(pending, Reply::Waited(258)),
        Step::Done(Ok(Output::Signaled(false)))
    );
    assert_eq!(
        device.resume(pending, Reply::Waited(0)),
        Step::Done(Ok(Output::Signaled(true)))
    );
    assert_eq!(
        device.resume(pending, Reply::Waited(0x80)),
        Step::Call(Pending::WaitFailed)
    );
    assert_eq!(
        device.resume(pending, Reply::Waited(u32::MAX)),
        Step::Call(Pending::WaitFailed)
    );
}

#[test]
fn a_wait_that_ends_oddly_without_an_error_is_false() {
    let mut native = FakeNative::new();
    let mut device = registered_device(&mut native);
    native.wait_result = 4294967295;
    native.last_error = 0;
    let step = device.wait(Duration::from_millis(25));
    assert_eq!(drive(&mut device, &mut native, step), Ok(Output::Signaled(false)));
    assert_eq!(
        native.calls,
        vec![
            Command::WaitForSingleObject { handle: 100, millis: 25 },
            Command::GetLastError,
        ]
    );
}

#[test]
fn a_failed_wait_reports_the_last_error() {
    let mut native = FakeNative::new();
    let mut device = registered_device(&mut native);
    native.wait_result = 4294967295;
    native.last_error = 6;
    let step = device.wait(Duration::from_millis(25));
    assert_eq!(
        drive(&mut device, &mut native, step),
        Err(DirectInputError::Unknown(-2147024890))
    );
    assert_eq!(device.event(), Some(100));
    assert_eq!(native.open, vec![100]);
}

#[test]
fn every_axis_gets_the_range() {
    let mut native = FakeNative::new();
    native.axes = vec![0x0102, 0x0202, 0x0302];
    native.range_codes = vec![0, 0, 0];
    let mut device = Device::new(INSTANCE);
    let step = device.set_axes_range(-32768, 32767);
    assert_eq!(step, Step::Call(Pending::EnumAxes { min: -32768, max: 32767 }));
    assert_eq!(drive(&mut device, &mut native, step), Ok(Output::Unit));
    assert_eq!(
        native.ranges,
        vec![(0x0102, -32768, 32767), (0x0202, -32768, 32767), (0x0302, -32768, 32767)]
    );
    assert_eq!(
        native.calls,
        vec![
            ENUM_AXES,
            Command::SetRange { object: 0x0102, how: 2, min: -32768, max: 32767 },
            Command::NextAxis,
            Command::SetRange { object: 0x0202, how: 2, min: -32768, max: 32767 },
            Command::NextAxis,
            Command::SetRange { object: 0x0302, how: 2, min: -32768, max: 32767 },
            Command::NextAxis,
        ]
    );
}

#[test]
fn an_axis_that_fails_is_skipped() {
    for failing in 0..4 {
        let mut native = FakeNative::new();
        native.axes = vec![10, 20, 30, 40];
        native.range_codes = vec![0; 4];
        native.range_codes[failing] = DIERR_INPUTLOST;
        let mut device = Device::new(INSTANCE);
        let step = device.set_axes_range(-5, 5);
        assert_eq!(drive(&mut device, &mut native, step), Ok(Output::Unit));
        let expected: Vec<(u32, i32, i32)> = [10u32, 20, 30, 40]
            .iter()
            .enumerate()
            .filter(|(i, _)| *i != failing)
            .map(|(_, &object)| (object, -5, 5))
            .collect();
        assert_eq!(native.ranges, expected);
    }
}

#[test]
fn a_device_without_axes_is_configured_with_success() {
    let mut native = FakeNative::new();
    let mut device = Device::new(INSTANCE);
    let step = device.set_axes_range(0, 1);
    assert_eq!(drive(&mut device, &mut native, step), Ok(Output::Unit));
    assert_eq!(native.calls, vec![ENUM_AXES]);
}

#[test]
fn a_failed_enumeration_of_axes_is_an_error() {
    let mut native = FakeNative::new();
    native.axes = vec![10];
    native.range_codes = vec![0];
    native.enum_code = DIERR_NOTINITIALIZED;
    let mut device = Device::new(INSTANCE);
    let step = device.set_axes_range(0, 1);
    assert_eq!(
        drive(&mut device, &mut native, step),
        Err(DirectInputError::NotInitialized)
    );
    assert_eq!(native.ranges, vec![(10, 0, 1)]);
}

#[test]
fn a_window_of_another_kind_is_refused_before_any_call() {
    let mut native = FakeNative::new();
    let mut device = Device::new(INSTANCE);
    let step = device.set_cooperative_level(WindowHandle::Other, CooperativeLevel::background());
    assert_eq!(step, Step::Done(Err(DirectInputError::Handle)));
    assert_eq!(drive(&mut device, &mut native, step), Err(DirectInputError::Handle));
    assert!(native.calls.is_empty());
}

#[test]
fn a_native_window_is_bound_with_the_flags() {
    let mut native = FakeNative::new();
    let mut device = Device::new(INSTANCE);
    let flags = CooperativeLevel::background().union(CooperativeLevel::exclusive());
    let step = device.set_cooperative_level(WindowHandle::Win32(0x5566), flags);
    assert_eq!(drive(&mut device, &mut native, step), Ok(Output::Unit));
    assert_eq!(
        native.calls,
        vec![Command::SetCooperativeLevel { hwnd: 0x5566, flags: 9 }]
    );

    native.level_code = -2147024809;
    let step = device.set_cooperative_level(WindowHandle::Win32(0x5566), flags);
    assert_eq!(
        drive(&mut device, &mut native, step),
        Err(DirectInputError::InvalidParam)
    );
}

#[test]
fn a_reply_that_is_no_answer_changes_nothing() {
    let mut native = FakeNative::new();
    let mut device = registered_device(&mut native);
    let pending = Pending::Wait { handle: 100, millis: 7 };
    for reply in [
        Reply::Code(0),
        Reply::Handle(5),
        Reply::Closed,
        Reply::LastError(3),
        Reply::Axis(1),
    ] {
        assert_eq!(device.resume(pending, reply), Step::Call(pending));
        assert_eq!(device.event(), Some(100));
    }
    let pending = Pending::Register { event: 7 };
    assert_eq!(device.resume(pending, Reply::Closed), Step::Call(pending));
    assert_eq!(device.event(), Some(100));
}

#[test]
fn acquiring_tells_priority_apart() {
    let device = Device::new(INSTANCE);
    assert_eq!(device.acquire(0), Ok(()));
    assert_eq!(device.acquire(1), Ok(()));
    assert_eq!(device.acquire(E_ACCESSDENIED), Err(DirectInputError::OtherAppHasPrio));
    assert_eq!(device.acquire(-2147024809), Err(DirectInputError::InvalidParam));
    assert_eq!(device.acquire(DIERR_NOTINITIALIZED), Err(DirectInputError::NotInitialized));
    assert_eq!(device.acquire(-3), Err(DirectInputError::Unknown(-3)));
}

#[test]
fn polling_tells_no_effect_apart() {
    let device = Device::new(INSTANCE);
    assert_eq!(device.poll(0), Ok(DirectInputStatus::Success));
    assert_eq!(device.poll(1), Ok(DirectInputStatus::NoEffect));
    assert_eq!(device.poll(2), Ok(DirectInputStatus::PolledDevice));
    assert_eq!(device.poll(7), Ok(DirectInputStatus::Success));
    assert_eq!(device.poll(DIERR_INPUTLOST), Err(DirectInputError::InputLost));
    assert_eq!(device.poll(DIERR_NOTACQUIRED), Err(DirectInputError::NotAcquired));
    assert_eq!(device.poll(DIERR_NOTINITIALIZED), Err(DirectInputError::NotInitialized));
}

#[test]
fn the_data_format_is_taken_or_not() {
    let mut device = Device::new(INSTANCE);
    assert_eq!(device.set_data_format(0), Ok(()));
    assert_eq!(device.init(0), Ok(()));
    assert_eq!(device.set_data_format(-2147024809), Err(DirectInputError::InvalidParam));
    assert_eq!(device.init(-2147024726), Err(DirectInputError::Acquired));
    assert_eq!(device.event(), None);
}

#[test]
fn the_state_is_read_or_the_error_reported() {
    let device = Device::new(INSTANCE);
    let mut raw = zero_state();
    raw.lX = -7;
    raw.rgbButtons[127] = 0x80;
    let state: JoyState = device.get_state(0, raw).unwrap();
    assert_eq!(state.x, -7);
    assert_eq!(state.buttons[127], 0x80);
    assert_eq!(
        device.get_state::<JoyState>(DIERR_NOTACQUIRED, raw),
        Err(DirectInputError::NotAcquired)
    );
    assert_eq!(
        device.get_state::<JoyState>(DIERR_NOTINITIALIZED, raw),
        Err(DirectInputError::NotInitialized)
    );
}

#[test]
fn the_capabilities_are_read_or_the_error_reported() {
    let device = Device::new(INSTANCE);
    let raw = RawCapabilities {
        dwSize: 44,
        dwFlags: 1,
        dwDevType: 2,
        dwAxes: 3,
        dwButtons: 4,
        dwPOVs: 5,
        dwFFSamplePeriod: 6,
        dwFFMinTimeResolution: 7,
        dwFirmwareRevision: 8,
        dwHardwareRevision: 9,
        dwFFDriverVersion: 10,
    };
    assert_eq!(
        device.capabilities(0, raw),
        Ok(DeviceCapabilities {
            flags: 1,
            dev_type: 2,
            axes: 3,
            buttons: 4,
            povs: 5,
            ff_sample_period: 6,
            ff_min_time_resolution: 7,
            firmware_revision: 8,
            hardware_revision: 9,
            ff_driver_version: 10,
        })
    );
    assert_eq!(
        device.capabilities(DIERR_NOTINITIALIZED, raw),
        Err(DirectInputError::NotInitialized)
    );
}

#[test]
fn release_gives_up_access_first_and_closes_the_event_once() {
    let mut native = FakeNative::new();
    let device = registered_device(&mut native);
    let plan = device.release();
    assert_eq!(
        plan,
        vec![Command::Unacquire, Command::Release, Command::CloseHandle(100)]
    );
    for command in plan {
        native.perform(command);
    }
    assert!(native.open.is_empty());
    assert_eq!(native.closed, vec![100]);
}

#[test]
fn release_without_an_event_closes_nothing() {
    let device = Device::new(INSTANCE);
    assert_eq!(device.release(), vec![Command::Unacquire, Command::Release]);
}

#[test]
fn each_pending_call_names_its_command() {
    assert_eq!(
        Pending::ClearNotification { old: 3 }.command(),
        Command::SetEventNotification(None)
    );
    assert_eq!(Pending::CloseOld { old: 3, cleared: 0 }.command(), Command::CloseHandle(3));
    assert_eq!(Pending::CreateEvent.command(), CREATE_EVENT);
    assert_eq!(Pending::CreateFailed.command(), Command::GetLastError);
    assert_eq!(
        Pending::Register { event: 4 }.command(),
        Command::SetEventNotification(Some(4))
    );
    assert_eq!(Pending::CloseNew { event: 4, failed: -1 }.command(), Command::CloseHandle(4));
    assert_eq!(Pending::EnumAxes { min: 1, max: 2 }.command(), ENUM_AXES);
    assert_eq!(Pending::NextAxis { min: 1, max: 2 }.command(), Command::NextAxis);
    assert_eq!(
        Pending::SetRange { object: 9, min: 1, max: 2 }.command(),
        Command::SetRange { object: 9, how: 2, min: 1, max: 2 }
    );
    assert_eq!(
        Pending::CooperativeLevel { hwnd: 8, flags: 6 }.command(),
        Command::SetCooperativeLevel { hwnd: 8, flags: 6 }
    );
    assert_eq!(Pending::WaitFailed.command(), Command::GetLastError);
}
