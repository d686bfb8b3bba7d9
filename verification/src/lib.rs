//! The rules of DirectInput game controllers: what a result code means, how
//! a device's life runs, and how its state and description are read.
//!
//! The crate never touches the operating system itself. An operation that is
//! one native call takes what the call came to and says what that means. An
//! operation that takes several calls is an exchange: the library names the
//! call to make as a [`Command`], the caller makes it and hands the answer
//! back as a [`Reply`], and the library decides what follows. What the
//! library decides is proved for every answer the native side can give.

pub mod cooperative_level;
pub mod device;
pub mod device_capabilities;
pub mod device_info;
pub mod error;
pub mod joy_state;
pub mod manager;
pub mod native;
pub mod runs;

pub use crate::cooperative_level::CooperativeLevel;
pub use crate::device::Device;
pub use crate::device_capabilities::{DeviceCapabilities, RawCapabilities};
pub use crate::device_info::{DirectInputDeviceInfo, Guid, RawDeviceInstance};
pub use crate::error::{DirectInputError, DirectInputStatus};
pub use crate::joy_state::{FromDeviceState, JoyState, RawJoyState};
pub use crate::manager::{DirectInputManager, IntoModuleInstance};
pub use crate::native::{Command, Output, Pending, Reply, Step, WindowHandle};
