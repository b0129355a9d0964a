use paint_engine::EngineError;
use paint_engine::device::{DeviceChoice, DeviceClass, PhysicalDeviceInfo, QueueFamily, select_device};

fn fam(graphics: bool, present: bool) -> QueueFamily {
    QueueFamily { supports_graphics: graphics, supports_present: present }
}

fn dev(class: DeviceClass, families: Vec<QueueFamily>) -> PhysicalDeviceInfo {
    PhysicalDeviceInfo { class, queue_families: families }
}

#[test]
fn prefers_discrete_over_earlier_integrated() {
    let devices = vec![
        dev(DeviceClass::Integrated, vec![fam(true, true)]),
        dev(DeviceClass::Discrete, vec![fam(true, true)]),
    ];
    let choice = select_device(&devices).unwrap();
    assert_eq!(choice, DeviceChoice { device_index: 1, queue_family_index: 0 });
}

#[test]
fn falls_back_to_first_integrated() {
    let devices = vec![
        dev(DeviceClass::Other, vec![fam(true, true)]),
        dev(DeviceClass::Integrated, vec![fam(true, true)]),
        dev(DeviceClass::Integrated, vec![fam(true, true)]),
    ];
    let choice = select_device(&devices).unwrap();
    assert_eq!(choice, DeviceChoice { device_index: 1, queue_family_index: 0 });
}

#[test]
fn first_discrete_in_enumeration_order_wins() {
    let devices = vec![
        dev(DeviceClass::Discrete, vec![fam(false, false), fam(true, true)]),
        dev(DeviceClass::Discrete, vec![fam(true, true)]),
    ];
    let choice = select_device(&devices).unwrap();
    assert_eq!(choice, DeviceChoice { device_index: 0, queue_family_index: 1 });
}

#[test]
fn first_qualifying_family_wins() {
    let devices = vec![dev(
        DeviceClass::Discrete,
        vec![fam(true, false), fam(false, true), fam(true, true), fam(true, true)],
    )];
    let choice = select_device(&devices).unwrap();
    assert_eq!(choice, DeviceChoice { device_index: 0, queue_family_index: 2 });
}

#[test]
fn discrete_without_capable_family_is_skipped() {
    let devices = vec![
        dev(DeviceClass::Discrete, vec![fam(true, false)]),
        dev(DeviceClass::Integrated, vec![fam(true, true)]),
    ];
    let choice = select_device(&devices).unwrap();
    assert_eq!(choice, DeviceChoice { device_index: 1, queue_family_index: 0 });
}

#[test]
fn empty_list_fails() {
    let devices: Vec<PhysicalDeviceInfo> = Vec::new();
    assert_eq!(select_device(&devices), Err(EngineError::NoSuitableDevice));
}

#[test]
fn no_capable_family_fails() {
    let devices = vec![
        dev(DeviceClass::Discrete, vec![fam(true, false)]),
        dev(DeviceClass::Integrated, vec![fam(false, true)]),
    ];
    assert_eq!(select_device(&devices), Err(EngineError::NoSuitableDevice));
}

#[test]
fn other_class_never_qualifies() {
    let devices = vec![dev(DeviceClass::Other, vec![fam(true, true)])];
    assert_eq!(select_device(&devices), Err(EngineError::NoSuitableDevice));
}
