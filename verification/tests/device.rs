use xr_passthrough::device::{
    find_first, find_headset, find_last, matches_index_camera, matches_index_headset, CameraError,
    DeviceInfo, HeadsetError, Property,
};
use xr_passthrough::find_index_camera;

fn property(name: &str, value: &str) -> Property {
    Property { name: name.as_bytes().to_vec(), value: value.as_bytes().to_vec() }
}

fn device(properties: &[(&str, &str)], has_devnode: bool) -> DeviceInfo {
    let properties = properties.iter().map(|(name, value)| property(name, value)).collect();
    DeviceInfo { properties, has_devnode }
}

fn headset(serial: &str) -> DeviceInfo {
    device(
        &[("ID_MODEL_ID", "2300"), ("ID_USB_INTERFACE_NUM", "00"), ("ID_SERIAL_SHORT", serial)],
        true,
    )
}

#[test]
fn first_and_last_property_with_a_name() {
    let properties = vec![property("A", "1"), property("B", "2"), property("A", "3")];
    assert_eq!(find_first(&properties, b"A"), Some(0));
    assert_eq!(find_last(&properties, b"A"), Some(2));
    assert_eq!(find_first(&properties, b"B"), Some(1));
    assert_eq!(find_last(&properties, b"C"), None);
    assert_eq!(find_first(&[], b"A"), None);
}

#[test]
fn camera_is_known_by_its_first_model_number() {
    assert!(matches_index_camera(&device(&[("ID_MODEL_ID", "2400")], false)));
    assert!(matches_index_camera(&device(
        &[("ID_MODEL_ID", "2400"), ("ID_MODEL_ID", "1")],
        false
    )));
    assert!(!matches_index_camera(&device(
        &[("ID_MODEL_ID", "1"), ("ID_MODEL_ID", "2400")],
        false
    )));
    assert!(!matches_index_camera(&device(&[("ID_MODEL", "2400")], false)));
}

#[test]
fn headset_is_known_by_its_last_numbers() {
    assert!(matches_index_headset(&headset("S")));
    assert!(matches_index_headset(&device(
        &[("ID_MODEL_ID", "1"), ("ID_MODEL_ID", "2300"), ("ID_USB_INTERFACE_NUM", "00")],
        true
    )));
    assert!(!matches_index_headset(&device(
        &[("ID_MODEL_ID", "2300"), ("ID_MODEL_ID", "1"), ("ID_USB_INTERFACE_NUM", "00")],
        true
    )));
    assert!(!matches_index_headset(&device(
        &[("ID_MODEL_ID", "2300"), ("ID_USB_INTERFACE_NUM", "01")],
        true
    )));
    assert!(!matches_index_headset(&device(&[("ID_MODEL_ID", "2300")], true)));
    assert!(!matches_index_headset(&device(
        &[("ID_MODEL_ID", "2300"), ("ID_USB_INTERFACE_NUM", "00")],
        false
    )));
}

#[test]
fn first_camera_is_used() {
    let devices = vec![
        device(&[("ID_MODEL_ID", "2300")], true),
        device(&[("ID_MODEL_ID", "2400")], true),
        device(&[("ID_MODEL_ID", "2400")], true),
    ];
    assert_eq!(find_index_camera(&devices), Ok(1));
}

#[test]
fn camera_has_to_be_there_and_accessible() {
    assert_eq!(find_index_camera(&[]), Err(CameraError::NotFound));
    let devices =
        vec![device(&[("ID_MODEL_ID", "2400")], false), device(&[("ID_MODEL_ID", "2400")], true)];
    assert_eq!(find_index_camera(&devices), Err(CameraError::NotAccessible));
}

#[test]
fn first_headset_is_used() {
    let devices = vec![device(&[("ID_MODEL_ID", "2400")], true), headset("LHR-1"), headset("LHR-2")];
    let found = find_headset(&devices).unwrap();
    assert_eq!(found.device, 1);
    assert_eq!(found.serial, b"LHR-1".to_vec());
}

#[test]
fn headset_has_to_be_there_and_have_a_serial_number() {
    assert_eq!(find_headset(&[]).unwrap_err(), HeadsetError::NotFound);
    let nameless = device(&[("ID_MODEL_ID", "2300"), ("ID_USB_INTERFACE_NUM", "00")], true);
    assert_eq!(find_headset(&[nameless, headset("S")]).unwrap_err(), HeadsetError::NoSerial);
}
