use xr_passthrough::device::{DeviceInfo, Property};
use xr_passthrough::steam::{
    cache_file_name, calibration_in, find_steam_config, find_steam_config_steam, lighthouse_parts,
    load_steam_config, next_source, steam_config_path, steam_config_path_for, steam_directory,
    Camera, ConfigSource, Distort, Extrinsics, Intrinsics, LighthouseConfig, Real, SteamError,
    SteamFile, StereoCamera, StereoError, TrackedCamera,
};

fn camera(name: Camera, mark: u64) -> TrackedCamera {
    let real = |bits| Real { bits };
    TrackedCamera {
        extrinsics: Extrinsics { position: [real(mark); 3] },
        intrinsics: Intrinsics {
            center_x: real(mark),
            center_y: real(2),
            focal_x: real(3),
            focal_y: real(4),
            height: real(5),
            width: real(6),
            distort: Distort { coeffs: [real(7); 4] },
        },
        name,
    }
}

fn config(cameras: Vec<TrackedCamera>) -> LighthouseConfig {
    LighthouseConfig { tracked_cameras: cameras, device_serial_number: "LHR-1".to_string() }
}

fn stereo(mark: u64) -> StereoCamera {
    StereoCamera { left: camera(Camera::Left, mark), right: camera(Camera::Right, mark) }
}

fn mark_of(calibration: &StereoCamera) -> (u64, u64) {
    (calibration.left.intrinsics.center_x.bits, calibration.right.intrinsics.center_x.bits)
}

fn property(name: &str, value: &str) -> Property {
    Property { name: name.as_bytes().to_vec(), value: value.as_bytes().to_vec() }
}

fn headset() -> DeviceInfo {
    DeviceInfo {
        properties: vec![
            property("ID_MODEL_ID", "2300"),
            property("ID_USB_INTERFACE_NUM", "00"),
            property("ID_SERIAL_SHORT", "LHR-1"),
        ],
        has_devnode: true,
    }
}

#[test]
fn first_camera_of_each_name_is_used() {
    let config = config(vec![
        camera(Camera::Right, 1),
        camera(Camera::Left, 2),
        camera(Camera::Right, 3),
        camera(Camera::Left, 4),
    ]);
    let calibration = StereoCamera::new(&config).unwrap();
    assert_eq!(mark_of(&calibration), (2, 1));
    assert_eq!(calibration.left.name, Camera::Left);
    assert_eq!(calibration.right.name, Camera::Right);
}

#[test]
fn both_cameras_are_needed() {
    let left_only = config(vec![camera(Camera::Left, 1)]);
    let right_only = config(vec![camera(Camera::Right, 1)]);
    let none = config(Vec::new());
    assert_eq!(StereoCamera::new(&left_only).unwrap_err(), StereoError::NoRightCamera);
    assert_eq!(StereoCamera::new(&right_only).unwrap_err(), StereoError::NoLeftCamera);
    assert_eq!(StereoCamera::new(&none).unwrap_err(), StereoError::NoLeftCamera);
}

#[test]
fn file_without_both_cameras_has_no_calibration() {
    assert!(calibration_in(&None).is_none());
    assert!(calibration_in(&Some(config(vec![camera(Camera::Left, 1)]))).is_none());
    let both = Some(config(vec![camera(Camera::Left, 1), camera(Camera::Right, 2)]));
    assert_eq!(mark_of(&calibration_in(&both).unwrap()), (1, 2));
}

#[test]
fn lower_case_steam_directory_comes_first() {
    assert_eq!(steam_directory(Some("steam"), Some("Steam")), Some("steam"));
    assert_eq!(steam_directory(None, Some("Steam")), Some("Steam"));
    assert_eq!(steam_directory(None::<&str>, None), None);
}

#[test]
fn steam_writes_ascii_serials_in_lower_case() {
    let path = steam_config_path(b"LHR-\xc4Z9");
    let parts: Vec<&[u8]> = path.parts.iter().map(|p| p.as_slice()).collect();
    assert_eq!(parts, vec![&b"config"[..], b"lighthouse", b"lhr-\xc4z9", b"config.json"]);
}

#[test]
fn steam_writes_text_serials_in_lower_case() {
    let path = steam_config_path_for("LHR-\u{c4}Z9");
    let parts: Vec<&[u8]> = path.parts.iter().map(|p| p.as_slice()).collect();
    assert_eq!(parts, vec![&b"config"[..], b"lighthouse", "lhr-\u{e4}z9".as_bytes(), b"config.json"]);
}

#[test]
fn both_lookups_read_the_same_file() {
    for (text, serial) in [("LHR-0Az9[", &b"lhr-0aZ9["[..]), ("", b""), ("@`{Z", b"@`{z")] {
        assert_eq!(steam_config_path_for(text).parts, steam_config_path(serial).parts);
    }
    let left = |calibration: Option<StereoCamera>| {
        calibration.map(|c| c.left.intrinsics.center_x.bits)
    };
    let complete = || {
        SteamFile::Parsed(config(vec![camera(Camera::Right, 1), camera(Camera::Left, 2)]))
    };
    assert_eq!(left(load_steam_config(complete()).ok()), Some(2));
    assert_eq!(left(find_steam_config_steam(complete())), Some(2));
    let lacking = || SteamFile::Parsed(config(vec![camera(Camera::Right, 1)]));
    for file in [lacking(), SteamFile::NoDirectory, SteamFile::Unreadable, SteamFile::Malformed] {
        assert!(find_steam_config_steam(file).is_none());
    }
    assert!(load_steam_config(lacking()).is_err());
}

#[test]
fn serials_are_a_part_of_the_path() {
    let path = lighthouse_parts(b"LHR-1".to_vec());
    let parts: Vec<&[u8]> = path.parts.iter().map(|p| p.as_slice()).collect();
    assert_eq!(parts, vec![&b"config"[..], b"lighthouse", b"LHR-1", b"config.json"]);
}

#[test]
fn cache_files_are_named_by_serial_number() {
    assert_eq!(cache_file_name(b"LHR-1"), b"LHR-1.json".to_vec());
    assert_ne!(cache_file_name(b"LHR-1"), cache_file_name(b"LHR-2"));
    assert_eq!(cache_file_name(b""), b".json".to_vec());
}

#[test]
fn steam_file_gives_its_calibration_or_an_error() {
    let parsed = SteamFile::Parsed(config(vec![camera(Camera::Left, 1), camera(Camera::Right, 2)]));
    assert_eq!(mark_of(&load_steam_config(parsed).unwrap()), (1, 2));
    let half = SteamFile::Parsed(config(vec![camera(Camera::Left, 1)]));
    assert_eq!(
        load_steam_config(half).unwrap_err(),
        SteamError::Incomplete(StereoError::NoRightCamera)
    );
    assert_eq!(load_steam_config(SteamFile::NoDirectory).unwrap_err(), SteamError::NoDirectory);
    assert_eq!(load_steam_config(SteamFile::Unreadable).unwrap_err(), SteamError::Unreadable);
    assert_eq!(load_steam_config(SteamFile::Malformed).unwrap_err(), SteamError::Malformed);
}

#[test]
fn sources_are_tried_until_one_has_a_calibration() {
    assert_eq!(next_source(None, false), Some(ConfigSource::Steam));
    assert_eq!(next_source(Some(ConfigSource::Steam), false), Some(ConfigSource::Cache));
    assert_eq!(next_source(Some(ConfigSource::Cache), false), Some(ConfigSource::Headset));
    assert_eq!(next_source(Some(ConfigSource::Headset), false), None);
    assert_eq!(next_source(Some(ConfigSource::Steam), true), None);
}

#[test]
fn first_source_with_a_calibration_wins() {
    let devices = vec![headset()];
    let find = |steam, cache, own| {
        find_steam_config(&devices, steam, cache, own).map(|calibration| mark_of(&calibration).0)
    };
    assert_eq!(find(Some(stereo(1)), Some(stereo(2)), Some(stereo(3))), Some(1));
    assert_eq!(find(None, Some(stereo(2)), Some(stereo(3))), Some(2));
    assert_eq!(find(None, None, Some(stereo(3))), Some(3));
    assert_eq!(find(None, None, None), None);
}

#[test]
fn no_calibration_without_a_headset() {
    assert!(find_steam_config(&[], Some(stereo(1)), Some(stereo(2)), Some(stereo(3))).is_none());
    let mut nameless = headset();
    nameless.properties.pop();
    assert!(find_steam_config(&[nameless], Some(stereo(1)), None, None).is_none());
}
