//! Devices as the system's device manager describes them, and the search for
//! the headset and its camera among them.
use crate::bytes::bytes_equal;
use vstd::prelude::*;
use vstd::utf8::*;

verus! {

/// Vendor number of every device that is looked for.
pub const VENDOR_ID: &'static str = "28de";

/// Subsystem in which the camera is looked for.
pub const CAMERA_SUBSYSTEM: &'static str = "video4linux";

/// Subsystem in which the headset is looked for.
pub const HEADSET_SUBSYSTEM: &'static str = "hidraw";

/// A property of a device: a name and a value.
#[derive(Debug)]
pub struct Property {
    pub name: Vec<u8>,
    pub value: Vec<u8>,
}

/// A device.
#[derive(Debug)]
pub struct DeviceInfo {
    /// Its properties, in the device manager's order.
    pub properties: Vec<Property>,
    /// Whether it has a device node through which it can be opened.
    pub has_devnode: bool,
}

/// Value of the first property with a name.
pub open spec fn first_value(properties: Seq<Property>, name: Seq<u8>) -> Option<Seq<u8>>
    decreases properties.len(),
{
    if properties.len() == 0 {
        None
    } else if properties[0].name@ == name {
        Some(properties[0].value@)
    } else {
        first_value(properties.skip(1), name)
    }
}

/// Value of the last property with a name.
pub open spec fn last_value(properties: Seq<Property>, name: Seq<u8>) -> Option<Seq<u8>>
    decreases properties.len(),
{
    if properties.len() == 0 {
        None
    } else if properties.last().name@ == name {
        Some(properties.last().value@)
    } else {
        last_value(properties.drop_last(), name)
    }
}

/// Place of the first property with the name `name`, if there is one.
pub fn find_first(properties: &[Property], name: &[u8]) -> (place: Option<usize>)
    ensures
        match place {
            Some(i) => {
                &&& i < properties@.len()
                &&& properties@[i as int].name@ == name@
                &&& forall|j: int| 0 <= j < i ==> (#[trigger] properties@[j]).name@ != name@
                &&& first_value(properties@, name@) == Some(properties@[i as int].value@)
            },
            None => first_value(properties@, name@) is None,
        },
{
    let mut i: usize = 0;
    assert(properties@.skip(0) =~= properties@);
    while i < properties.len()
        invariant
            i <= properties@.len(),
            first_value(properties@, name@) == first_value(properties@.skip(i as int), name@),
            forall|j: int| 0 <= j < i ==> (#[trigger] properties@[j]).name@ != name@,
        decreases properties.len() - i,
    {
        assert(properties@.skip(i as int)[0] == properties@[i as int]);
        assert(properties@.skip(i as int).skip(1) =~= properties@.skip(i + 1));
        if bytes_equal(properties[i].name.as_slice(), name) {
            return Some(i);
        }
        i += 1;
    }
    None
}

/// Place of the last property with the name `name`, if there is one.
pub fn find_last(properties: &[Property], name: &[u8]) -> (place: Option<usize>)
    ensures
        match place {
            Some(i) => {
                &&& i < properties@.len()
                &&& properties@[i as int].name@ == name@
                &&& forall|j: int|
                    i < j < properties@.len() ==> (#[trigger] properties@[j]).name@ != name@
                &&& last_value(properties@, name@) == Some(properties@[i as int].value@)
            },
            None => last_value(properties@, name@) is None,
        },
{
    let mut found: Option<usize> = None;
    let mut i: usize = 0;
    while i < properties.len()
        invariant
            i <= properties@.len(),
            match found {
                Some(k) => {
                    &&& k < i
                    &&& properties@[k as int].name@ == name@
                    &&& forall|j: int| k < j < i ==> (#[trigger] properties@[j]).name@ != name@
                    &&& last_value(properties@.take(i as int), name@) == Some(
                        properties@[k as int].value@,
                    )
                },
                None => last_value(properties@.take(i as int), name@) is None,
            },
        decreases properties.len() - i,
    {
        assert(properties@.take(i + 1).last() == properties@[i as int]);
        assert(properties@.take(i + 1).drop_last() =~= properties@.take(i as int));
        if bytes_equal(properties[i].name.as_slice(), name) {
            found = Some(i);
        }
        i += 1;
    }
    assert(properties@.take(i as int) =~= properties@);
    found
}

/// Whether a device is the camera of an Index headset: its first model number
/// is 2400.
pub open spec fn is_index_camera(device: DeviceInfo) -> bool {
    first_value(device.properties@, encode_utf8("ID_MODEL_ID"@)) == Some(encode_utf8("2400"@))
}

/// Whether a device is an Index headset that can be opened: its last model
/// number is 2300, its last interface number is 00, and it has a device node.
pub open spec fn is_index_headset(device: DeviceInfo) -> bool {
    &&& last_value(device.properties@, encode_utf8("ID_MODEL_ID"@)) == Some(encode_utf8("2300"@))
    &&& last_value(device.properties@, encode_utf8("ID_USB_INTERFACE_NUM"@)) == Some(
        encode_utf8("00"@),
    )
    &&& device.has_devnode
}

/// The serial number of a device.
pub open spec fn serial_of(device: DeviceInfo) -> Option<Seq<u8>> {
    first_value(device.properties@, encode_utf8("ID_SERIAL_SHORT"@))
}

/// Whether `device` is the camera of an Index headset.
pub fn matches_index_camera(device: &DeviceInfo) -> (yes: bool)
    ensures
        yes == is_index_camera(*device),
{
    match find_first(device.properties.as_slice(), "ID_MODEL_ID".as_bytes()) {
        Some(i) => bytes_equal(device.properties[i].value.as_slice(), "2400".as_bytes()),
        None => false,
    }
}

/// Whether `device` is an Index headset that can be opened.
pub fn matches_index_headset(device: &DeviceInfo) -> (yes: bool)
    ensures
        yes == is_index_headset(*device),
{
    let model = match find_last(device.properties.as_slice(), "ID_MODEL_ID".as_bytes()) {
        Some(i) => bytes_equal(device.properties[i].value.as_slice(), "2300".as_bytes()),
        None => false,
    };
    let interface = match find_last(
        device.properties.as_slice(),
        "ID_USB_INTERFACE_NUM".as_bytes(),
    ) {
        Some(i) => bytes_equal(device.properties[i].value.as_slice(), "00".as_bytes()),
        None => false,
    };
    model && interface && device.has_devnode
}

/// Why no camera device can be used.
#[derive(Debug, Eq, PartialEq, Clone, Copy, Structural)]
pub enum CameraError {
    /// There is no such device.
    NotFound,
    /// There is one, but it has no device node.
    NotAccessible,
}

/// Why no headset can be used.
#[derive(Debug, Eq, PartialEq, Clone, Copy, Structural)]
pub enum HeadsetError {
    /// There is no such device.
    NotFound,
    /// There is one, but it has no serial number.
    NoSerial,
}

/// A headset that was found.
#[derive(Debug)]
pub struct Headset {
    /// Its place among the devices.
    pub device: usize,
    pub serial: Vec<u8>,
}

/// Whether the headset at a place is the one to use: it is the first one that can
/// be opened, and it has a serial number.
pub open spec fn is_headset_to_use(devices: Seq<DeviceInfo>, i: int) -> bool {
    &&& 0 <= i < devices.len()
    &&& is_index_headset(devices[i])
    &&& serial_of(devices[i]) is Some
    &&& forall|j: int| 0 <= j < i ==> !is_index_headset(#[trigger] devices[j])
}

/// Finds the camera among the devices of [`VENDOR_ID`] in
/// [`CAMERA_SUBSYSTEM`]: the first one that is an Index camera, and no other,
/// is the one to use.
pub fn find_index_camera(devices: &[DeviceInfo]) -> (found: Result<usize, CameraError>)
    ensures
        match found {
            Ok(i) => {
                &&& i < devices@.len()
                &&& is_index_camera(devices@[i as int])
                &&& devices@[i as int].has_devnode
                &&& forall|j: int| 0 <= j < i ==> !is_index_camera(#[trigger] devices@[j])
            },
            Err(CameraError::NotFound) => forall|j: int|
                0 <= j < devices@.len() ==> !is_index_camera(#[trigger] devices@[j]),
            Err(CameraError::NotAccessible) => exists|i: int|
                {
                    &&& 0 <= i < devices@.len()
                    &&& is_index_camera(#[trigger] devices@[i])
                    &&& !devices@[i].has_devnode
                    &&& forall|j: int| 0 <= j < i ==> !is_index_camera(#[trigger] devices@[j])
                },
        },
{
    let mut i: usize = 0;
    while i < devices.len()
        invariant
            i <= devices@.len(),
            forall|j: int| 0 <= j < i ==> !is_index_camera(#[trigger] devices@[j]),
        decreases devices.len() - i,
    {
        if matches_index_camera(&devices[i]) {
            assert(is_index_camera(devices@[i as int]));
            if devices[i].has_devnode {
                return Ok(i);
            } else {
                return Err(CameraError::NotAccessible);
            }
        }
        i += 1;
    }
    Err(CameraError::NotFound)
}

/// Finds the headset among the devices of [`VENDOR_ID`] in
/// [`HEADSET_SUBSYSTEM`]: the first one that is an Index headset and can be
/// opened. It has to have a serial number.
pub fn find_headset(devices: &[DeviceInfo]) -> (found: Result<Headset, HeadsetError>)
    ensures
        match found {
            Ok(headset) => {
                &&& is_headset_to_use(devices@, headset.device as int)
                &&& serial_of(devices@[headset.device as int]) == Some(headset.serial@)
            },
            Err(HeadsetError::NotFound) => forall|j: int|
                0 <= j < devices@.len() ==> !is_index_headset(#[trigger] devices@[j]),
            Err(HeadsetError::NoSerial) => exists|i: int|
                {
                    &&& 0 <= i < devices@.len()
                    &&& is_index_headset(#[trigger] devices@[i])
                    &&& serial_of(devices@[i]) is None
                    &&& forall|j: int| 0 <= j < i ==> !is_index_headset(#[trigger] devices@[j])
                },
        },
{
    let mut i: usize = 0;
    while i < devices.len()
        invariant
            i <= devices@.len(),
            forall|j: int| 0 <= j < i ==> !is_index_headset(#[trigger] devices@[j]),
        decreases devices.len() - i,
    {
        if matches_index_headset(&devices[i]) {
            assert(is_index_headset(devices@[i as int]));
            let properties = devices[i].properties.as_slice();
            match find_first(properties, "ID_SERIAL_SHORT".as_bytes()) {
                Some(k) => {
                    let value = properties[k].value.as_slice();
                    let serial = crate::bytes::copy_range(value, 0, value.len());
                    assert(serial@ =~= value@);
                    return Ok(Headset { device: i, serial });
                },
                None => {
                    return Err(HeadsetError::NoSerial);
                },
            }
        }
        i += 1;
    }
    Err(HeadsetError::NotFound)
}

/// Of several properties with a name the first one counts where the first value is
/// asked for, and the last one where the last value is.
pub proof fn first_and_last_properties_count(
    properties: Seq<Property>,
    name: Seq<u8>,
    i: int,
)
    requires
        0 <= i < properties.len(),
        properties[i].name@ == name,
    ensures
        (forall|j: int| 0 <= j < i ==> (#[trigger] properties[j]).name@ != name) ==> first_value(
            properties,
            name,
        ) == Some(properties[i].value@),
        (forall|j: int| i < j < properties.len() ==> (#[trigger] properties[j]).name@ != name)
            ==> last_value(properties, name) == Some(properties[i].value@),
    decreases properties.len(),
{
    if i > 0 {
        let rest = properties.skip(1);
        assert(rest[i - 1] == properties[i]);
        first_and_last_properties_count(rest, name, i - 1);
        if forall|j: int| 0 <= j < i ==> (#[trigger] properties[j]).name@ != name {
            assert forall|j: int| 0 <= j < i - 1 implies (#[trigger] rest[j]).name@ != name by {
                assert(rest[j] == properties[j + 1]);
            }
            assert(properties[0].name@ != name);
        }
    }
    if i < properties.len() - 1 {
        let rest = properties.drop_last();
        assert(rest[i] == properties[i]);
        first_and_last_properties_count(rest, name, i);
        if forall|j: int| i < j < properties.len() ==> (#[trigger] properties[j]).name@ != name {
            assert forall|j: int| i < j < rest.len() implies (#[trigger] rest[j]).name@ != name by {
                assert(rest[j] == properties[j]);
            }
            assert(properties[properties.len() - 1].name@ != name);
        }
    }
}

/// A property that a device does not have has no value.
pub proof fn missing_properties_have_no_value(properties: Seq<Property>, name: Seq<u8>)
    requires
        forall|j: int| 0 <= j < properties.len() ==> (#[trigger] properties[j]).name@ != name,
    ensures
        first_value(properties, name) is None,
        last_value(properties, name) is None,
    decreases properties.len(),
{
    if properties.len() > 0 {
        let rest = properties.skip(1);
        assert forall|j: int| 0 <= j < rest.len() implies (#[trigger] rest[j]).name@ != name by {
            assert(rest[j] == properties[j + 1]);
        }
        missing_properties_have_no_value(rest, name);
        let front = properties.drop_last();
        assert forall|j: int| 0 <= j < front.len() implies (#[trigger] front[j]).name@ != name by {
            assert(front[j] == properties[j]);
        }
        missing_properties_have_no_value(front, name);
        assert(properties[0].name@ != name);
        assert(properties[properties.len() - 1].name@ != name);
    }
}

/// A camera is told by its first model number, a headset by its last model number
/// and its last interface number. A headset has to have a device node, a camera is
/// told without one. A serial number is the first one.
pub proof fn devices_are_told_by_their_numbers(device: DeviceInfo)
    ensures
        ({
            let first = |name: Seq<char>| first_value(device.properties@, encode_utf8(name));
            let last = |name: Seq<char>| last_value(device.properties@, encode_utf8(name));
            &&& is_index_camera(device) <==> first("ID_MODEL_ID"@) == Some(encode_utf8("2400"@))
            &&& is_index_headset(device) <==> device.has_devnode && last("ID_MODEL_ID"@) == Some(
                encode_utf8("2300"@),
            ) && last("ID_USB_INTERFACE_NUM"@) == Some(encode_utf8("00"@))
            &&& serial_of(device) == first("ID_SERIAL_SHORT"@)
        }),
{
}

/// There is one headset to use at most: the first one that can be opened. It has a
/// serial number; if the first one has none, no other one takes its place.
pub proof fn headset_to_use_is_the_first_one(devices: Seq<DeviceInfo>, i: int, j: int)
    requires
        0 <= i < devices.len(),
        is_index_headset(devices[i]),
        forall|k: int| 0 <= k < i ==> !is_index_headset(#[trigger] devices[k]),
    ensures
        is_headset_to_use(devices, i) <==> first_value(
            devices[i].properties@,
            encode_utf8("ID_SERIAL_SHORT"@),
        ) is Some,
        is_headset_to_use(devices, j) ==> i == j,
{
}

} // verus!
