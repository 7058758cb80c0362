use xr_passthrough::headset::{
    load_config_file_from_headset, HeadsetReader, ReadAction, ReadFailure, ReadStage,
    ReportOutcome,
};
use xr_passthrough::steam::{
    Camera, Distort, Extrinsics, Intrinsics, LighthouseConfig, Real, TrackedCamera,
};

/// `{"device_serial_number":"LHR-1"}`, compressed.
const COMPRESSED: [u8; 40] = [
    120, 218, 171, 86, 74, 73, 45, 203, 76, 78, 141, 47,
    78, 45, 202, 76, 204, 137, 207, 43, 205, 77, 74, 45,
    82, 178, 82, 242, 241, 8, 210, 53, 84, 170, 5, 0,
    199, 97, 11, 54,
];

fn report(n: i32, carried: &[u8]) -> ReportOutcome {
    let mut report = [0; 65];
    report[1] = carried.len() as u8;
    report[2..2 + carried.len()].copy_from_slice(carried);
    ReportOutcome::Received { n, report }
}

fn failed(error: i32) -> ReportOutcome {
    ReportOutcome::Failed { error }
}

fn ask(report_id: u8, pause_ms: u64) -> ReadAction {
    ReadAction::Request { report_id, pause_ms }
}

#[test]
fn transfer_starts_with_its_own_report() {
    let (reader, action) = HeadsetReader::start();
    assert_eq!(action, ask(0x10, 0));
    assert_eq!(reader.stage, ReadStage::Start);
    assert!(reader.data.is_empty());
}

#[test]
fn pieces_are_joined_in_order() {
    let (mut reader, _) = HeadsetReader::start();
    assert_eq!(reader.step(report(65, &[9, 9])), ask(0x11, 0));
    assert_eq!(reader.step(report(65, &[1, 2, 3])), ask(0x11, 0));
    assert_eq!(reader.step(report(65, &[4])), ask(0x11, 0));
    assert_eq!(reader.step(report(65, &[])), ReadAction::Complete);
    assert_eq!(reader.data, vec![1, 2, 3, 4]);
    assert_eq!(reader.stage, ReadStage::Finished);
}

#[test]
fn full_reports_carry_sixty_three_bytes() {
    let (mut reader, _) = HeadsetReader::start();
    reader.step(report(65, &[]));
    let piece: Vec<u8> = (0..63).collect();
    assert_eq!(reader.step(report(65, &piece)), ask(0x11, 0));
    assert_eq!(reader.data, piece);
}

#[test]
fn empty_answer_ends_the_transfer() {
    let (mut reader, _) = HeadsetReader::start();
    reader.step(report(65, &[]));
    assert_eq!(reader.step(report(0, &[1])), ReadAction::Complete);
    assert!(reader.data.is_empty());
}

#[test]
fn empty_answer_to_the_start_is_a_failure() {
    let (mut reader, _) = HeadsetReader::start();
    assert_eq!(reader.step(report(0, &[])), ReadAction::Abort(ReadFailure::StartEmpty));
}

#[test]
fn start_is_tried_fifty_times() {
    let (mut reader, _) = HeadsetReader::start();
    for error in 1..50 {
        assert_eq!(reader.step(failed(error)), ask(0x10, 1));
    }
    let failure = ReadFailure::StartFailed { error: 71 };
    assert_eq!(reader.step(failed(71)), ReadAction::Abort(failure));
}

#[test]
fn piece_is_tried_fifty_times() {
    let (mut reader, _) = HeadsetReader::start();
    for _ in 0..49 {
        reader.step(failed(5));
    }
    assert_eq!(reader.step(report(65, &[])), ask(0x11, 0));
    for _ in 0..49 {
        assert_eq!(reader.step(failed(5)), ask(0x11, 1));
    }
    let failure = ReadFailure::DataFailed { error: 32 };
    assert_eq!(reader.step(failed(32)), ReadAction::Abort(failure));
}

#[test]
fn failed_attempts_lose_nothing() {
    let (mut reader, _) = HeadsetReader::start();
    reader.step(report(65, &[]));
    reader.step(report(65, &[7]));
    reader.step(failed(5));
    reader.step(report(65, &[8]));
    assert_eq!(reader.data, vec![7, 8]);
    assert_eq!(reader.attempts, 0);
}

#[test]
fn transfer_is_decompressed() {
    let (mut reader, _) = HeadsetReader::start();
    reader.step(report(65, &[]));
    reader.step(report(65, &COMPRESSED[..20]));
    reader.step(report(65, &COMPRESSED[20..]));
    reader.step(report(65, &[]));
    assert_eq!(reader.config_text().unwrap(), "{\"device_serial_number\":\"LHR-1\"}");
}

#[test]
fn broken_transfer_gives_no_text() {
    let (mut reader, _) = HeadsetReader::start();
    reader.step(report(65, &[]));
    reader.step(report(65, &COMPRESSED[..20]));
    assert!(reader.config_text().is_none());
    let (reader, _) = HeadsetReader::start();
    assert!(reader.config_text().is_none());
}

fn camera(name: Camera, mark: u64) -> TrackedCamera {
    let real = |bits| Real { bits };
    TrackedCamera {
        extrinsics: Extrinsics { position: [real(mark); 3] },
        intrinsics: Intrinsics {
            center_x: real(mark),
            center_y: real(2),
            focal_x: real(3),
            focal_y: real(4),
            height: real(5),
            width: real(6),
            distort: Distort { coeffs: [real(7); 4] },
        },
        name,
    }
}

#[test]
fn headset_config_is_kept_under_its_serial_number() {
    let config = Some(LighthouseConfig {
        tracked_cameras: vec![camera(Camera::Right, 1), camera(Camera::Left, 2)],
        device_serial_number: "LHR-AB12".to_string(),
    });
    let loaded = load_config_file_from_headset(&config).unwrap();
    assert_eq!(loaded.cache_file, b"LHR-AB12.json".to_vec());
    assert_eq!(loaded.calibration.left.intrinsics.center_x, Real { bits: 2 });
    assert_eq!(loaded.calibration.right.intrinsics.center_x, Real { bits: 1 });
}

#[test]
fn headset_config_without_both_cameras_is_not_used() {
    let config = Some(LighthouseConfig {
        tracked_cameras: vec![camera(Camera::Right, 1)],
        device_serial_number: "LHR-AB12".to_string(),
    });
    assert!(load_config_file_from_headset(&config).is_none());
    assert!(load_config_file_from_headset(&None).is_none());
}
