//! The entry to the input subsystem: creating it, listing the attached
//! devices and opening one of them.

use vstd::prelude::*;
use crate::device::Device;
use crate::device_info::{DirectInputDeviceInfo, RawDeviceInstance};
use crate::error::{succeeded, DirectInputError};

verus! {

/// A value that names the module to which the input subsystem is bound.
pub trait IntoModuleInstance: Sized {
    /// The module's instance handle.
    spec fn instance(self) -> isize;

    /// The module's instance handle.
    fn into_instance(self) -> (instance: isize)
        ensures
            instance == self.instance(),
    ;
}

impl IntoModuleInstance for isize {
    open spec fn instance(self) -> isize {
        self
    }

    fn into_instance(self) -> (instance: isize) {
        self
    }
}

/// The input subsystem, bound to one module.
#[derive(Debug, PartialEq, Eq)]
pub struct DirectInputManager {
    instance: isize,
}

impl View for DirectInputManager {
    type V = isize;

    /// The instance handle of the module to which the subsystem is bound.
    closed spec fn view(&self) -> isize {
        self.instance
    }
}

/// What creating the subsystem or opening a device comes to: the error that
/// the result code stands for where the call failed, `missing` where it
/// reported success and yet handed out no interface, and success otherwise.
pub open spec fn creation_error(code: i32, interface: bool, missing: DirectInputError) -> Option<
    DirectInputError,
> {
    if code < 0 {
        Some(DirectInputError::of_code(code))
    } else if !interface {
        Some(missing)
    } else {
        None
    }
}

/// Whether `list` describes the records of `found`, one for one and in the
/// same order.
pub open spec fn lists(list: Seq<DirectInputDeviceInfo>, found: Seq<RawDeviceInstance>) -> bool {
    &&& list.len() == found.len()
    &&& forall|i: int| 0 <= i < list.len() ==> (#[trigger] list[i]).describes(found[i])
}

impl DirectInputManager {
    /// The subsystem for the module `instance`, given what creating it for
    /// that module with `DirectInput8Create` came to: the result code, and
    /// whether an interface was handed out.
    pub fn new<M: IntoModuleInstance>(instance: M, code: i32, interface: bool) -> (manager: Result<
        DirectInputManager,
        DirectInputError,
    >)
        ensures
            match creation_error(code, interface, DirectInputError::BadDriverVersion) {
                Some(error) => manager == Err::<DirectInputManager, DirectInputError>(error),
                None => manager matches Ok(m) && m@ == instance.instance(),
            },
    {
        if !succeeded(code) {
            Err(DirectInputError::from_hresult(code))
        } else if !interface {
            Err(DirectInputError::BadDriverVersion)
        } else {
            Ok(DirectInputManager { instance: instance.into_instance() })
        }
    }

    /// The instance handle of the module to which the subsystem is bound.
    pub fn instance(&self) -> (instance: isize)
        ensures
            instance == self@,
    {
        self.instance
    }

    /// The attached game controllers, given what enumerating them with
    /// `EnumDevices` came to: the result code, and the records that the
    /// enumeration reported, in its order. Each record is described in its place; no record at all is
    /// an empty list, not an error.
    pub fn enum_devices(&self, code: i32, found: &Vec<RawDeviceInstance>) -> (devices: Result<
        Vec<DirectInputDeviceInfo>,
        DirectInputError,
    >)
        ensures
            match devices {
                Ok(list) => code >= 0 && lists(list@, found@),
                Err(error) => code < 0 && error == DirectInputError::of_code(code),
            },
            code >= 0 && found@.len() == 0 ==> (devices matches Ok(list) && list@.len() == 0),
    {
        if !succeeded(code) {
            return Err(DirectInputError::from_hresult(code));
        }
        let mut list: Vec<DirectInputDeviceInfo> = Vec::new();
        let mut i: usize = 0;
        while i < found.len()
            invariant
                i <= found@.len(),
                list@.len() == i,
                lists(list@, found@.take(i as int)),
            decreases found@.len() - i,
        {
            list.push(DirectInputDeviceInfo::from_instance(&found[i]));
            i += 1;
        }
        assert(found@.take(i as int) == found@);
        Ok(list)
    }

    /// The bookkeeping for the device that `device_info` describes, given
    /// what opening that instance with `CreateDevice` came to: the result
    /// code, and whether an interface was handed out.
    pub fn create_device(
        &self,
        device_info: &DirectInputDeviceInfo,
        code: i32,
        interface: bool,
    ) -> (device: Result<Device, DirectInputError>)
        ensures
            match creation_error(code, interface, DirectInputError::InputLost) {
                Some(error) => device == Err::<Device, DirectInputError>(error),
                None => device matches Ok(d) && d.opened() == device_info@.guid_instance && d@
                    is None,
            },
    {
        if !succeeded(code) {
            Err(DirectInputError::from_hresult(code))
        } else if !interface {
            Err(DirectInputError::InputLost)
        } else {
            Ok(Device::new(*device_info.guid_instance()))
        }
    }
}

} // verus!
