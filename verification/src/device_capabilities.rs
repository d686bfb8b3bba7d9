//! What a device can do, as it reports it.

use vstd::prelude::*;

verus! {

/// The capabilities record as the native query fills it.
#[allow(non_snake_case)]
#[derive(Clone, Copy, Debug, PartialEq, Eq, Structural)]
pub struct RawCapabilities {
    pub dwSize: u32,
    pub dwFlags: u32,
    pub dwDevType: u32,
    pub dwAxes: u32,
    pub dwButtons: u32,
    pub dwPOVs: u32,
    pub dwFFSamplePeriod: u32,
    pub dwFFMinTimeResolution: u32,
    pub dwFirmwareRevision: u32,
    pub dwHardwareRevision: u32,
    pub dwFFDriverVersion: u32,
}

/// A snapshot of a device's capabilities.
#[derive(Clone, Copy, Debug, PartialEq, Eq, Structural)]
pub struct DeviceCapabilities {
    pub flags: u32,
    pub dev_type: u32,
    pub axes: u32,
    pub buttons: u32,
    pub povs: u32,
    pub ff_sample_period: u32,
    pub ff_min_time_resolution: u32,
    pub firmware_revision: u32,
    pub hardware_revision: u32,
    pub ff_driver_version: u32,
}

impl DeviceCapabilities {
    /// The snapshot that a filled native record stands for: every field but
    /// the record's own size.
    pub open spec fn decoded(caps: RawCapabilities) -> DeviceCapabilities {
        DeviceCapabilities {
            flags: caps.dwFlags,
            dev_type: caps.dwDevType,
            axes: caps.dwAxes,
            buttons: caps.dwButtons,
            povs: caps.dwPOVs,
            ff_sample_period: caps.dwFFSamplePeriod,
            ff_min_time_resolution: caps.dwFFMinTimeResolution,
            firmware_revision: caps.dwFirmwareRevision,
            hardware_revision: caps.dwHardwareRevision,
            ff_driver_version: caps.dwFFDriverVersion,
        }
    }

    /// Reads a filled native record.
    pub fn from_instance(caps: RawCapabilities) -> (out: DeviceCapabilities)
        ensures
            out == Self::decoded(caps),
    {
        DeviceCapabilities {
            flags: caps.dwFlags,
            dev_type: caps.dwDevType,
            axes: caps.dwAxes,
            buttons: caps.dwButtons,
            povs: caps.dwPOVs,
            ff_sample_period: caps.dwFFSamplePeriod,
            ff_min_time_resolution: caps.dwFFMinTimeResolution,
            firmware_revision: caps.dwFirmwareRevision,
            hardware_revision: caps.dwHardwareRevision,
            ff_driver_version: caps.dwFFDriverVersion,
        }
    }
}

} // verus!
