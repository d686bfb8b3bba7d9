use directinput::error::{DIERR_BADDRIVERVER, DIERR_DEVICENOTREG, DIERR_INVALIDPARAM};
use directinput::{
    DirectInputDeviceInfo, DirectInputError, DirectInputManager, Guid, RawDeviceInstance,
};

fn manager() -> DirectInputManager {
    DirectInputManager::new(0x0040_0000isize, 0, true).expect("Failed to initialize manager")
}

fn record(tag: u16) -> RawDeviceInstance {
    let mut name = [0u16; 260];
    name[0] = 0x50;
    name[1] = 0x30 + tag;
    RawDeviceInstance {
        dwSize: 1100,
        guidInstance: Guid { data1: tag as u32, data2: tag, data3: tag, data4: [tag as u8; 8] },
        guidProduct: Guid { data1: 7, data2: 7, data3: 7, data4: [7; 8] },
        dwDevType: 0x0114,
        tszInstanceName: name,
        tszProductName: name,
        guidFFDriver: Guid { data1: 0, data2: 0, data3: 0, data4: [0; 8] },
        wUsagePage: 1,
        wUsage: 4,
    }
}

#[test]
fn test_create_instance() {
    let dll_instance: isize = 0x0040_0000;

    DirectInputManager::new(dll_instance, 0, true).expect("Failed to initialize manager");
}

#[test]
fn test_enumeration() {
    let manager = manager();

    manager.enum_devices(0, &Vec::new()).expect("Failed to enumerate devices");
}

#[test]
fn the_manager_remembers_its_module() {
    assert_eq!(DirectInputManager::new(77isize, 1, true).unwrap().instance(), 77);
}

#[test]
fn manager_creation_reports_each_failure() {
    assert_eq!(
        DirectInputManager::new(1isize, 0, false),
        Err(DirectInputError::BadDriverVersion)
    );
    assert_eq!(
        DirectInputManager::new(1isize, DIERR_BADDRIVERVER, true),
        Err(DirectInputError::BadDriverVersion)
    );
    assert_eq!(
        DirectInputManager::new(1isize, DIERR_INVALIDPARAM, false),
        Err(DirectInputError::InvalidParam)
    );
    assert_eq!(
        DirectInputManager::new(1isize, -9, true),
        Err(DirectInputError::Unknown(-9))
    );
}

#[test]
fn no_device_is_an_empty_list() {
    assert_eq!(manager().enum_devices(0, &Vec::new()), Ok(Vec::new()));
    assert_eq!(manager().enum_devices(1, &Vec::new()), Ok(Vec::new()));
}

#[test]
fn devices_are_listed_in_the_order_of_the_enumeration() {
    let found = vec![record(3), record(1), record(2)];
    let devices = manager().enum_devices(0, &found).unwrap();
    assert_eq!(devices.len(), 3);
    for (device, raw) in devices.iter().zip(found.iter()) {
        assert_eq!(*device, DirectInputDeviceInfo::from_instance(raw));
    }
    assert_eq!(devices[0].guid_instance().data1, 3);
    assert_eq!(devices[1].guid_instance().data1, 1);
    assert_eq!(devices[2].guid_instance().data1, 2);
    assert_eq!(devices[1].instance_name(), &vec![0x50, 0x31]);
}

#[test]
fn a_failed_enumeration_is_an_error_whatever_was_found() {
    assert_eq!(
        manager().enum_devices(DIERR_INVALIDPARAM, &vec![record(1)]),
        Err(DirectInputError::InvalidParam)
    );
    assert_eq!(
        manager().enum_devices(-12, &Vec::new()),
        Err(DirectInputError::Unknown(-12))
    );
}

#[test]
fn a_device_is_opened_for_its_instance_and_without_an_event() {
    for tag in [1u16, 2, 9] {
        let info = DirectInputDeviceInfo::from_instance(&record(tag));
        let device = manager()
            .create_device(&info, 0, true)
            .expect("Failed to create device instance");
        assert_eq!(device.event(), None);
        assert_eq!(*device.guid_instance(), record(tag).guidInstance);
        assert_eq!(device.guid_instance().data1, tag as u32);
    }
}

#[test]
fn opening_a_device_reports_each_failure() {
    let info = DirectInputDeviceInfo::from_instance(&record(1));
    assert_eq!(manager().create_device(&info, 0, false), Err(DirectInputError::InputLost));
    assert_eq!(
        manager().create_device(&info, DIERR_DEVICENOTREG, true),
        Err(DirectInputError::DeviceNotReg)
    );
    assert_eq!(
        manager().create_device(&info, DIERR_DEVICENOTREG, false),
        Err(DirectInputError::DeviceNotReg)
    );
}
