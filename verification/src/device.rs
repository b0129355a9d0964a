//! Physical device and queue family selection.
//!
//! Given what enumeration reported of every physical device — its class and,
//! per queue family, whether the family supports graphics commands and
//! presentation to the target surface — selection returns exactly one
//! (device, queue family) pair. Among qualifying devices a discrete GPU is
//! preferred; failing that, the first qualifying integrated GPU; failing
//! both, selection fails fatally. Ties break to the first matching queue
//! family per device and the first matching device in enumeration order.

use vstd::prelude::*;
use crate::EngineError;

verus! {

/// The device classes the selection policy distinguishes. Anything that is
/// neither a discrete nor an integrated GPU never qualifies.
#[derive(Clone, Copy, PartialEq, Eq, Structural, Debug)]
pub enum DeviceClass {
    Discrete,
    Integrated,
    Other,
}

/// What selection reads of one queue family.
#[derive(Clone, Copy, PartialEq, Eq, Structural, Debug)]
pub struct QueueFamily {
    pub supports_graphics: bool,
    pub supports_present: bool,
}

/// What selection reads of one physical device, in enumeration order.
#[derive(Debug)]
pub struct PhysicalDeviceInfo {
    pub class: DeviceClass,
    pub queue_families: Vec<QueueFamily>,
}

/// The selected device and queue family, as indices into what was
/// enumerated.
#[derive(Clone, Copy, PartialEq, Eq, Structural, Debug)]
pub struct DeviceChoice {
    pub device_index: usize,
    pub queue_family_index: usize,
}

/// Family `j` of device `d` supports both graphics and presentation.
pub open spec fn family_qualifies(d: PhysicalDeviceInfo, j: int) -> bool {
    &&& 0 <= j < d.queue_families@.len()
    &&& d.queue_families@[j].supports_graphics
    &&& d.queue_families@[j].supports_present
}

/// Device `d` has at least one graphics+present-capable queue family.
pub open spec fn device_capable(d: PhysicalDeviceInfo) -> bool {
    exists|j: int| family_qualifies(d, j)
}

/// Device `d` can be selected: it is capable and is a discrete or
/// integrated GPU.
pub open spec fn device_qualifies(d: PhysicalDeviceInfo) -> bool {
    device_capable(d) && (d.class is Discrete || d.class is Integrated)
}

/// Some discrete device in the list qualifies.
pub open spec fn has_discrete(devices: Seq<PhysicalDeviceInfo>) -> bool {
    exists|i: int|
        0 <= i < devices.len() && (#[trigger] devices[i]).class is Discrete && device_capable(
            devices[i],
        )
}

/// Some integrated device in the list qualifies.
pub open spec fn has_integrated(devices: Seq<PhysicalDeviceInfo>) -> bool {
    exists|i: int|
        0 <= i < devices.len() && (#[trigger] devices[i]).class is Integrated && device_capable(
            devices[i],
        )
}

/// Index `i` is the first qualifying device of class `class`.
pub open spec fn first_of_class(
    devices: Seq<PhysicalDeviceInfo>,
    i: int,
    class: DeviceClass,
) -> bool {
    &&& 0 <= i < devices.len()
    &&& devices[i].class == class
    &&& device_capable(devices[i])
    &&& forall|k: int|
        0 <= k < i ==> !((#[trigger] devices[k]).class == class && device_capable(devices[k]))
}

/// Index `j` is the first qualifying queue family of device `d`.
pub open spec fn first_family(d: PhysicalDeviceInfo, j: int) -> bool {
    &&& family_qualifies(d, j)
    &&& forall|k: int| 0 <= k < j ==> !family_qualifies(d, k)
}

/// The choice the policy owes: the first qualifying discrete device when one
/// exists, else the first qualifying integrated device, with the first
/// qualifying queue family of the chosen device.
pub open spec fn choice_correct(devices: Seq<PhysicalDeviceInfo>, c: DeviceChoice) -> bool {
    &&& if has_discrete(devices) {
        first_of_class(devices, c.device_index as int, DeviceClass::Discrete)
    } else {
        first_of_class(devices, c.device_index as int, DeviceClass::Integrated)
    }
    &&& first_family(devices[c.device_index as int], c.queue_family_index as int)
}

/// Returns the first queue family of `d` that supports both graphics and
/// presentation, if any.
fn find_queue_family(d: &PhysicalDeviceInfo) -> (found: Option<usize>)
    ensures
        match found {
            Some(j) => first_family(*d, j as int),
            None => !device_capable(*d),
        },
{
    let mut j: usize = 0;
    while j < d.queue_families.len()
        invariant
            j <= d.queue_families@.len(),
            forall|k: int| 0 <= k < j ==> !family_qualifies(*d, k),
        decreases d.queue_families@.len() - j,
    {
        let fam = d.queue_families[j];
        if fam.supports_graphics && fam.supports_present {
            assert(family_qualifies(*d, j as int));
            return Some(j);
        }
        j = j + 1;
    }
    assert forall|jj: int| !family_qualifies(*d, jj) by {
        if 0 <= jj < d.queue_families@.len() {
            assert(!family_qualifies(*d, jj));
        }
    }
    None
}

/// Selects the device and queue family the policy owes, or fails when no
/// discrete or integrated device has a graphics+present-capable family.
pub fn select_device(devices: &Vec<PhysicalDeviceInfo>) -> (result: Result<
    DeviceChoice,
    EngineError,
>)
    ensures
        result is Ok <==> has_discrete(devices@) || has_integrated(devices@),
        match result {
            Ok(c) => choice_correct(devices@, c),
            Err(e) => e is NoSuitableDevice,
        },
{
    let mut integrated: Option<DeviceChoice> = None;
    let mut i: usize = 0;
    while i < devices.len()
        invariant
            i <= devices@.len(),
            forall|k: int|
                0 <= k < i ==> !((#[trigger] devices@[k]).class is Discrete && device_capable(
                    devices@[k],
                )),
            match integrated {
                Some(c) => first_of_class(devices@, c.device_index as int, DeviceClass::Integrated)
                    && c.device_index < i && first_family(
                    devices@[c.device_index as int],
                    c.queue_family_index as int,
                ),
                None => forall|k: int|
                    0 <= k < i ==> !((#[trigger] devices@[k]).class is Integrated
                        && device_capable(devices@[k])),
            },
        decreases devices@.len() - i,
    {
        let d = &devices[i];
        match find_queue_family(d) {
            Some(j) => {
                match d.class {
                    DeviceClass::Discrete => {
                        assert(devices@[i as int].class is Discrete && device_capable(
                            devices@[i as int],
                        ));
                        return Ok(DeviceChoice { device_index: i, queue_family_index: j });
                    },
                    DeviceClass::Integrated => {
                        if integrated.is_none() {
                            assert(devices@[i as int].class is Integrated && device_capable(
                                devices@[i as int],
                            ));
                            integrated = Some(
                                DeviceChoice { device_index: i, queue_family_index: j },
                            );
                        }
                    },
                    DeviceClass::Other => {},
                }
            },
            None => {},
        }
        i = i + 1;
    }
    assert(!has_discrete(devices@));
    match integrated {
        Some(c) => Ok(c),
        None => {
            assert(!has_integrated(devices@));
            Err(EngineError::NoSuitableDevice)
        },
    }
}

} // verus!
