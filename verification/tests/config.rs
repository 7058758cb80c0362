use xr_passthrough::config::{
    default_display_eye, load_config, load_pipeline_cache, load_splash, splash_upload,
    AutoSavingPipelineCache, CacheFile, Config, ConfigError, ConfigFile, Eye, Picture,
    ProjectionMode,
};
use xr_passthrough::vulkan::{Format, ImagePlan, ImageUsage};

/// A picture of a red pixel and one of red 1, green 2, blue 3 to its right.
const PNG: [u8; 72] = [
    137, 80, 78, 71, 13, 10, 26, 10, 0, 0, 0, 13,
    73, 72, 68, 82, 0, 0, 0, 2, 0, 0, 0, 1,
    8, 2, 0, 0, 0, 123, 64, 232, 221, 0, 0, 0,
    15, 73, 68, 65, 84, 120, 218, 99, 248, 207, 192, 192,
    200, 196, 12, 0, 6, 11, 1, 6, 189, 112, 37, 106,
    0, 0, 0, 0, 73, 69, 78, 68, 174, 66, 96, 130,
];

fn bytes_of(hex: &str) -> Vec<u8> {
    (0..hex.len() / 2).map(|i| u8::from_str_radix(&hex[2 * i..2 * i + 2], 16).unwrap()).collect()
}

fn secret_of(hex: &str) -> [u8; 32] {
    bytes_of(hex).try_into().unwrap()
}

#[test]
fn left_eye_is_shown_by_default() {
    assert_eq!(default_display_eye(), Eye::Left);
}

#[test]
fn default_projection_is_from_the_camera() {
    assert_eq!(ProjectionMode::default(), ProjectionMode::FromCamera);
}

#[test]
fn default_config_names_no_camera() {
    let config = Config::default();
    assert_eq!(config.camera_device, "");
    assert!(!config.debug);
}

#[test]
fn settings_that_are_left_out_have_their_defaults() {
    let config = Config::from_settings(None, Some(true));
    assert_eq!(config.camera_device, "");
    assert!(config.debug);
    let config = Config::from_settings(Some("/dev/video7".to_string()), None);
    assert_eq!(config.camera_device, "/dev/video7");
    assert!(!config.debug);
}

#[test]
fn missing_config_file_gives_the_defaults() {
    let config = load_config(ConfigFile::Missing).unwrap();
    assert_eq!(config.camera_device, "");
    assert!(!config.debug);
}

#[test]
fn parsed_config_file_is_used_as_it_is() {
    let parsed = Config { camera_device: "/dev/video1".to_string(), debug: true };
    let config = load_config(ConfigFile::Parsed(parsed)).unwrap();
    assert_eq!(config.camera_device, "/dev/video1");
    assert!(config.debug);
}

#[test]
fn config_file_that_cannot_be_used_is_an_error() {
    assert_eq!(load_config(ConfigFile::Unreadable).unwrap_err(), ConfigError::Unreadable);
    assert_eq!(load_config(ConfigFile::Malformed).unwrap_err(), ConfigError::Malformed);
}

#[test]
fn cache_file_is_key_then_signature_then_data() {
    let file = CacheFile { key: [1; 32], signature: [2; 64], data: vec![3, 4] };
    let bytes = file.to_bytes();
    assert_eq!(bytes.len(), 98);
    assert!(bytes[..32].iter().all(|&b| b == 1));
    assert!(bytes[32..96].iter().all(|&b| b == 2));
    assert_eq!(&bytes[96..], &[3, 4]);
    let parts = CacheFile::from_bytes(&bytes).unwrap();
    assert_eq!(parts.key, [1; 32]);
    assert_eq!(parts.signature, [2; 64]);
    assert_eq!(parts.data, vec![3, 4]);
}

#[test]
fn cache_file_needs_a_whole_header() {
    assert!(CacheFile::from_bytes(&[0; 95]).is_none());
    let parts = CacheFile::from_bytes(&[0; 96]).unwrap();
    assert!(parts.data.is_empty());
}

#[test]
fn payload_needs_both_checks() {
    let file = || CacheFile { key: [1; 32], signature: [2; 64], data: vec![3] };
    assert_eq!(file().into_payload(true, true), Some(vec![3]));
    assert_eq!(file().into_payload(false, true), None);
    assert_eq!(file().into_payload(true, false), None);
    assert_eq!(file().into_payload(false, false), None);
}

#[test]
fn cache_is_signed_with_ed25519() {
    let secret = secret_of("4ccd089b28ff96da9db6c346ec114e0f5b8a319f35aba624da8cf6ed4fb8a6fb");
    let cache = AutoSavingPipelineCache { data: vec![0x72] };
    let file = cache.save_with_key(&secret);
    let expected = [
        "3d4017c3e843895a92b70aa74d1b7ebc9c982ccf2ec4968cc0cd55f12af4660c",
        "92a009a9f0d4cab8720e820b5f642540a2b27b5416503f8fb3762223ebdb69da",
        "085ac1e43e15996e458f3613d0f11d8c387b2eaeb4302aeeb00d291612bb0c00",
        "72",
    ];
    let expected = bytes_of(&expected.concat());
    assert_eq!(file, expected);
    assert_eq!(load_pipeline_cache(Some(file)), Some(vec![0x72]));
}

#[test]
fn empty_cache_is_kept_too() {
    let secret = secret_of("9d61b19deffd5a60ba844af492ec2cc44449c5697b326919703bac031cae7f60");
    let cache = AutoSavingPipelineCache { data: Vec::new() };
    let file = cache.save_with_key(&secret);
    let key = bytes_of("d75a980182b10ab7d54bfed3c964073a0ee172f3daa62325af021a68f707511a");
    assert_eq!(file.len(), 96);
    assert_eq!(&file[..32], &key[..]);
    assert_eq!(load_pipeline_cache(Some(file)), Some(Vec::new()));
}

#[test]
fn saved_cache_loads_again() {
    let cache = AutoSavingPipelineCache { data: (0..200).collect() };
    let file = cache.save();
    assert_eq!(file.len(), 296);
    assert_eq!(load_pipeline_cache(Some(file)), Some((0..200).collect()));
}

#[test]
fn every_save_uses_a_key_of_its_own() {
    let cache = AutoSavingPipelineCache { data: vec![9; 10] };
    let first = cache.save();
    let second = cache.save();
    assert_ne!(first[..32], second[..32]);
    assert_eq!(first[96..], second[96..]);
}

#[test]
fn changed_cache_files_are_turned_away() {
    let cache = AutoSavingPipelineCache { data: vec![5; 40] };
    let file = cache.save();
    for place in [0, 31, 32, 95, 96, 135] {
        let mut changed = file.clone();
        changed[place] ^= 1;
        assert_eq!(load_pipeline_cache(Some(changed)), None, "byte {}", place);
    }
    assert_eq!(load_pipeline_cache(Some(file[..135].to_vec())), None);
}

#[test]
fn short_or_missing_cache_files_give_nothing() {
    assert_eq!(load_pipeline_cache(None), None);
    assert_eq!(load_pipeline_cache(Some(Vec::new())), None);
    assert_eq!(load_pipeline_cache(Some(vec![0; 95])), None);
}

#[test]
fn signature_of_small_order_is_turned_away() {
    let mut file = vec![0; 96];
    file[0] = 1;
    file[32] = 1;
    assert_eq!(load_pipeline_cache(Some(file)), None);
}

fn splash_plan(width: u32, height: u32) -> ImagePlan {
    ImagePlan {
        format: Format::R8G8B8A8Unorm,
        width,
        height,
        array_layers: 1,
        usage: ImageUsage {
            transfer_src: true,
            transfer_dst: true,
            sampled: true,
            color_attachment: false,
            depth_stencil_attachment: false,
        },
    }
}

#[test]
fn splash_is_decoded_to_four_channels() {
    let upload = load_splash(&PNG).unwrap();
    assert_eq!(upload.image, splash_plan(2, 1));
    assert_eq!(upload.contents, vec![255, 0, 0, 255, 1, 2, 3, 255]);
}

#[test]
fn splash_that_does_not_decode_gives_nothing() {
    assert!(load_splash(&PNG[..20]).is_none());
    assert!(load_splash(b"no picture").is_none());
}

#[test]
fn picture_is_uploaded_as_it_is() {
    let picture = Picture { width: 1, height: 2, pixels: vec![1, 2, 3, 4, 5, 6, 7, 8] };
    let upload = splash_upload(picture);
    assert_eq!(upload.image, splash_plan(1, 2));
    assert_eq!(upload.contents, vec![1, 2, 3, 4, 5, 6, 7, 8]);
}
