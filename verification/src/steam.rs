//! Camera calibration: where it is looked for, how it is read from the headset,
//! and which part of it is used.
use crate::bytes::{copy_range, push_all, to_ascii_lowercase};
use crate::device::{find_headset, DeviceInfo};
use vstd::prelude::*;
use vstd::utf8::*;

verus! {

use crate::bytes::{ascii_lower, ascii_lower_char};
use crate::device::is_headset_to_use;

/// Directory of the calibration files, below the user's cache directory.
pub const CALIBRATION_CACHE_DIRECTORY: &'static str = "xr_passthrough_layer";

/// A double precision number, by its bits (IEEE 754, 64 bits). The library
/// carries such numbers along and computes nothing with them.
#[derive(Debug, Eq, PartialEq, Clone, Copy, Structural)]
pub struct Real {
    pub bits: u64,
}

/// Where a camera is.
#[derive(Debug, Clone, Copy)]
pub struct Extrinsics {
    /// Offset of the camera from Hmd
    pub position: [Real; 3],
}

/// How a lens distorts.
#[derive(Debug, Clone, Copy)]
pub struct Distort {
    pub coeffs: [Real; 4],
}

/// How a camera sees.
#[derive(Debug, Clone, Copy)]
pub struct Intrinsics {
    /// Optical center X
    pub center_x: Real,
    /// Optical center Y
    pub center_y: Real,
    /// X focal length in device pixels
    pub focal_x: Real,
    /// Y focal length in device pixels
    pub focal_y: Real,
    /// Height of the camera output in pixels
    pub height: Real,
    /// Width of the camera output in pixels
    pub width: Real,
    pub distort: Distort,
}

/// Which of the two cameras.
#[derive(Debug, Eq, PartialEq, Clone, Copy, Structural)]
pub enum Camera {
    Left,
    Right,
}

/// Calibration of one camera.
#[derive(Debug, Clone, Copy)]
pub struct TrackedCamera {
    pub extrinsics: Extrinsics,
    pub intrinsics: Intrinsics,
    pub name: Camera,
}

/// Calibration of both cameras.
#[derive(Debug, Clone, Copy)]
pub struct StereoCamera {
    pub left: TrackedCamera,
    pub right: TrackedCamera,
}

/// Extract relevant bits of information from steam config files
#[derive(Debug)]
pub struct LighthouseConfig {
    pub tracked_cameras: Vec<TrackedCamera>,
    pub device_serial_number: String,
}

/// Why a configuration gives no calibration.
#[derive(Debug, Eq, PartialEq, Clone, Copy, Structural)]
pub enum StereoError {
    NoLeftCamera,
    NoRightCamera,
}

/// The first camera with a name.
pub open spec fn first_camera(cameras: Seq<TrackedCamera>, name: Camera) -> Option<TrackedCamera>
    decreases cameras.len(),
{
    if cameras.len() == 0 {
        None
    } else if cameras[0].name == name {
        Some(cameras[0])
    } else {
        first_camera(cameras.skip(1), name)
    }
}

/// The calibration in a list of cameras: the first left and the first right
/// one. A missing left camera is noticed first.
pub open spec fn stereo_of(cameras: Seq<TrackedCamera>) -> Result<StereoCamera, StereoError> {
    match (first_camera(cameras, Camera::Left), first_camera(cameras, Camera::Right)) {
        (Some(left), Some(right)) => Ok(StereoCamera { left, right }),
        (None, _) => Err(StereoError::NoLeftCamera),
        (_, None) => Err(StereoError::NoRightCamera),
    }
}

fn find_camera(cameras: &[TrackedCamera], name: Camera) -> (camera: Option<TrackedCamera>)
    ensures
        camera == first_camera(cameras@, name),
{
    let mut i: usize = 0;
    assert(cameras@.skip(0) =~= cameras@);
    while i < cameras.len()
        invariant
            i <= cameras@.len(),
            first_camera(cameras@, name) == first_camera(cameras@.skip(i as int), name),
        decreases cameras.len() - i,
    {
        assert(cameras@.skip(i as int)[0] == cameras@[i as int]);
        assert(cameras@.skip(i as int).skip(1) =~= cameras@.skip(i + 1));
        if cameras[i].name == name {
            return Some(cameras[i]);
        }
        i += 1;
    }
    None
}

impl StereoCamera {
    /// The calibration in a configuration.
    pub fn new(cfg: &LighthouseConfig) -> (calibration: Result<Self, StereoError>)
        ensures
            calibration == stereo_of(cfg.tracked_cameras@),
    {
        let left = find_camera(cfg.tracked_cameras.as_slice(), Camera::Left);
        let right = find_camera(cfg.tracked_cameras.as_slice(), Camera::Right);
        let left = match left {
            Some(left) => left,
            None => return Err(StereoError::NoLeftCamera),
        };
        let right = match right {
            Some(right) => right,
            None => return Err(StereoError::NoRightCamera),
        };
        Ok(StereoCamera { left, right })
    }
}

/// The camera that is found is in the list, and carries the name.
proof fn lemma_first_camera(cameras: Seq<TrackedCamera>, name: Camera)
    ensures
        first_camera(cameras, name) matches Some(camera) ==> cameras.contains(camera)
            && camera.name == name,
        first_camera(cameras, name) is None ==> forall|i: int|
            0 <= i < cameras.len() ==> (#[trigger] cameras[i]).name != name,
    decreases cameras.len(),
{
    if cameras.len() > 0 && cameras[0].name != name {
        let rest = cameras.skip(1);
        lemma_first_camera(rest, name);
        if let Some(camera) = first_camera(rest, name) {
            let i = choose|i: int| 0 <= i < rest.len() && rest[i] == camera;
            assert(cameras[i + 1] == camera);
        } else {
            assert forall|i: int| 0 <= i < cameras.len() implies (#[trigger] cameras[i]).name
                != name by {
                if i > 0 {
                    assert(cameras[i] == rest[i - 1]);
                }
            }
        }
    } else if cameras.len() > 0 {
        assert(cameras.contains(cameras[0]));
    }
}

/// A calibration has a left and a right camera, both out of the configuration.
/// There is one as soon as the configuration has a camera of each name.
pub proof fn calibration_is_a_left_and_a_right_camera(cameras: Seq<TrackedCamera>)
    ensures
        match stereo_of(cameras) {
            Ok(calibration) => {
                &&& calibration.left.name == Camera::Left
                &&& calibration.right.name == Camera::Right
                &&& cameras.contains(calibration.left)
                &&& cameras.contains(calibration.right)
            },
            Err(StereoError::NoLeftCamera) => forall|i: int|
                0 <= i < cameras.len() ==> (#[trigger] cameras[i]).name != Camera::Left,
            Err(StereoError::NoRightCamera) => forall|i: int|
                0 <= i < cameras.len() ==> (#[trigger] cameras[i]).name != Camera::Right,
        },
{
    lemma_first_camera(cameras, Camera::Left);
    lemma_first_camera(cameras, Camera::Right);
}

/// The calibration in a configuration file, if the file was there, could be
/// read and made sense.
pub open spec fn calibration_of(config: Option<LighthouseConfig>) -> Option<StereoCamera> {
    match config {
        Some(config) => match stereo_of(config.tracked_cameras@) {
            Ok(calibration) => Some(calibration),
            Err(_) => None,
        },
        None => None,
    }
}

/// The calibration in a configuration file, if the file was there, could be
/// read and made sense.
pub fn calibration_in(config: &Option<LighthouseConfig>) -> (calibration: Option<StereoCamera>)
    ensures
        calibration == calibration_of(*config),
{
    match config {
        Some(config) => match StereoCamera::new(config) {
            Ok(calibration) => Some(calibration),
            Err(_) => None,
        },
        None => None,
    }
}

/// Steam's directory: the one with the small letter, or else the one with the
/// capital.
pub open spec fn chosen_directory<T>(lower: Option<T>, upper: Option<T>) -> Option<T> {
    if lower is Some {
        lower
    } else {
        upper
    }
}

/// Steam's directory among the user's data directories: `steam`, or else
/// `Steam`.
pub fn steam_directory<T>(lower: Option<T>, upper: Option<T>) -> (directory: Option<T>)
    ensures
        directory == chosen_directory(lower, upper),
{
    if lower.is_some() {
        lower
    } else {
        upper
    }
}

/// Parts of the path, below Steam's directory, of the configuration of a
/// headset whose serial number is written `serial` there.
pub open spec fn lighthouse_path(serial: Seq<u8>) -> Seq<Seq<u8>> {
    seq![
        encode_utf8("config"@),
        encode_utf8("lighthouse"@),
        serial,
        encode_utf8("config.json"@),
    ]
}

/// Parts of the path, below Steam's directory, of the configuration of the
/// headset with a serial number. Steam writes the number in lower case.
pub open spec fn steam_path(serial: Seq<u8>) -> Seq<Seq<u8>> {
    lighthouse_path(serial.map_values(|b: u8| ascii_lower(b)))
}

/// A path by the bytes of its parts.
#[derive(Debug)]
pub struct PathParts {
    pub parts: Vec<Vec<u8>>,
}

impl View for PathParts {
    type V = Seq<Seq<u8>>;

    open spec fn view(&self) -> Seq<Seq<u8>> {
        self.parts@.map_values(|part: Vec<u8>| part@)
    }
}

fn owned_bytes(s: &[u8]) -> (bytes: Vec<u8>)
    ensures
        bytes@ == s@,
{
    let bytes = copy_range(s, 0, s.len());
    assert(bytes@ =~= s@);
    bytes
}

/// Path, below Steam's directory, of the configuration of a headset whose serial
/// number is written `serial` there.
pub fn lighthouse_parts(serial: Vec<u8>) -> (path: PathParts)
    ensures
        path@ == lighthouse_path(serial@),
{
    let mut parts: Vec<Vec<u8>> = Vec::new();
    let ghost written = serial@;
    parts.push(owned_bytes("config".as_bytes()));
    parts.push(owned_bytes("lighthouse".as_bytes()));
    parts.push(serial);
    parts.push(owned_bytes("config.json".as_bytes()));
    let path = PathParts { parts };
    assert(path@ =~= lighthouse_path(written));
    path
}

/// Path, below Steam's directory, of the configuration of the headset with the
/// serial number `serial`. Steam writes the number in lower case.
pub fn steam_config_path(serial: &[u8]) -> (path: PathParts)
    ensures
        path@ == steam_path(serial@),
{
    lighthouse_parts(to_ascii_lowercase(serial))
}

/// The lower-case form of a text.
pub uninterp spec fn lowercase_text(text: Seq<char>) -> Seq<char>;

/// The lower-case form of `text`.
///
/// Calls `str::to_lowercase`, which goes by the Unicode character tables that
/// the standard library holds: it depends on the text alone. In a text of ASCII
/// characters the capitals `A`..`Z` become `a`..`z`, and nothing else changes.
#[verifier::external_body]
fn to_lowercase(text: &str) -> (lower: String)
    ensures
        lower@ == lowercase_text(text@),
        is_ascii_chars(text@) ==> lower@ == text@.map_values(|c: char| ascii_lower_char(c)),
{
    text.to_lowercase()
}

/// Lower case means the same for the characters and for the bytes of an ASCII
/// text.
proof fn lemma_ascii_lower(text: Seq<char>)
    requires
        is_ascii_chars(text),
    ensures
        encode_utf8(text.map_values(|c: char| ascii_lower_char(c))) == encode_utf8(
            text,
        ).map_values(|b: u8| ascii_lower(b)),
{
    let lower = text.map_values(|c: char| ascii_lower_char(c));
    assert forall|i: int| 0 <= i < lower.len() implies '\0' <= #[trigger] lower[i] <= '\u{7f}'
        && lower[i] as u8 == ascii_lower(text[i] as u8) by {
        assert('\0' <= text[i] <= '\u{7f}');
    }
    is_ascii_chars_encode_utf8(text);
    is_ascii_chars_encode_utf8(lower);
    assert(encode_utf8(lower) =~= encode_utf8(text).map_values(|b: u8| ascii_lower(b)));
}

/// Path, below Steam's directory, of the configuration of the headset whose
/// serial number is the text `hmd_serial`. For an ASCII text it is the path that
/// [`steam_config_path`] gives for the text's bytes.
pub fn steam_config_path_for(hmd_serial: &str) -> (path: PathParts)
    ensures
        path@ == lighthouse_path(encode_utf8(lowercase_text(hmd_serial@))),
        is_ascii_chars(hmd_serial@) ==> path@ == steam_path(encode_utf8(hmd_serial@)),
{
    let lower = to_lowercase(hmd_serial);
    proof {
        if is_ascii_chars(hmd_serial@) {
            lemma_ascii_lower(hmd_serial@);
        }
    }
    lighthouse_parts(owned_bytes(lower.as_str().as_bytes()))
}

/// Name of the file, in [`CALIBRATION_CACHE_DIRECTORY`], that keeps the
/// configuration of the headset with a serial number.
pub open spec fn cache_name(serial: Seq<u8>) -> Seq<u8> {
    serial + encode_utf8(".json"@)
}

/// Name of the file, in [`CALIBRATION_CACHE_DIRECTORY`], that keeps the
/// configuration of the headset with the serial number `serial`.
pub fn cache_file_name(serial: &[u8]) -> (name: Vec<u8>)
    ensures
        name@ == cache_name(serial@),
{
    let mut name = owned_bytes(serial);
    push_all(&mut name, ".json".as_bytes());
    name
}

/// Headsets with different serial numbers have different files in the cache.
pub proof fn cache_names_are_distinct(a: Seq<u8>, b: Seq<u8>)
    ensures
        cache_name(a) == cache_name(b) <==> a == b,
{
    let suffix = encode_utf8(".json"@);
    if cache_name(a) == cache_name(b) {
        assert(cache_name(a).len() == a.len() + suffix.len());
        assert(a =~= cache_name(a).take(a.len() as int));
        assert(b =~= cache_name(b).take(b.len() as int));
    }
}

/// What was found where Steam should keep a headset's configuration.
#[derive(Debug)]
pub enum SteamFile {
    /// Steam's directory was not found.
    NoDirectory,
    /// The file could not be read.
    Unreadable,
    /// The file was read, and is no valid configuration.
    Malformed,
    /// The file was read and understood.
    Parsed(LighthouseConfig),
}

/// Why Steam's configuration gives no calibration.
#[derive(Debug, Eq, PartialEq, Clone, Copy, Structural)]
pub enum SteamError {
    NoDirectory,
    Unreadable,
    Malformed,
    Incomplete(StereoError),
}

/// The calibration that Steam keeps for a headset, or why there is none.
pub open spec fn steam_result(file: SteamFile) -> Result<StereoCamera, SteamError> {
    match file {
        SteamFile::NoDirectory => Err(SteamError::NoDirectory),
        SteamFile::Unreadable => Err(SteamError::Unreadable),
        SteamFile::Malformed => Err(SteamError::Malformed),
        SteamFile::Parsed(config) => match stereo_of(config.tracked_cameras@) {
            Ok(calibration) => Ok(calibration),
            Err(e) => Err(SteamError::Incomplete(e)),
        },
    }
}

/// The configuration that Steam keeps for a headset, if there is a valid one.
pub open spec fn config_of(file: SteamFile) -> Option<LighthouseConfig> {
    match file {
        SteamFile::Parsed(config) => Some(config),
        _ => None,
    }
}

/// The calibration that Steam keeps for a headset, if it keeps one.
pub fn find_steam_config_steam(file: SteamFile) -> (calibration: Option<StereoCamera>)
    ensures
        calibration == calibration_of(config_of(file)),
{
    let config = match file {
        SteamFile::Parsed(config) => Some(config),
        _ => None,
    };
    calibration_in(&config)
}

/// A serial number that is given as text, in ASCII, and one that a headset gave as
/// bytes lead to the same file where they differ in nothing but capitals, and so
/// [`load_steam_config`] and [`find_steam_config_steam`] give the same calibration
/// for them. `files` says what is found at each path below Steam's directory.
pub proof fn both_lookups_agree(
    text: Seq<char>,
    serial: Seq<u8>,
    files: spec_fn(Seq<Seq<u8>>) -> SteamFile,
)
    requires
        is_ascii_chars(text),
        encode_utf8(text).map_values(|b: u8| ascii_lower(b)) == serial.map_values(
            |b: u8| ascii_lower(b),
        ),
    ensures
        steam_path(encode_utf8(text)) == steam_path(serial),
        steam_result(files(steam_path(encode_utf8(text)))).ok() == calibration_of(
            config_of(files(steam_path(serial))),
        ),
{
}

/// The calibration that Steam keeps for a headset, or why there is none.
pub fn load_steam_config(file: SteamFile) -> (calibration: Result<StereoCamera, SteamError>)
    ensures
        calibration == steam_result(file),
{
    match file {
        SteamFile::NoDirectory => Err(SteamError::NoDirectory),
        SteamFile::Unreadable => Err(SteamError::Unreadable),
        SteamFile::Malformed => Err(SteamError::Malformed),
        SteamFile::Parsed(config) => match StereoCamera::new(&config) {
            Ok(calibration) => Ok(calibration),
            Err(e) => Err(SteamError::Incomplete(e)),
        },
    }
}

/// Where a headset's calibration is looked for.
#[derive(Debug, Eq, PartialEq, Clone, Copy, Structural)]
pub enum ConfigSource {
    /// Among Steam's own files.
    Steam,
    /// In the cache of what headsets said before.
    Cache,
    /// In the headset itself.
    Headset,
}

/// The source to look into next: Steam, then the cache, then the headset, until
/// one has a calibration.
pub open spec fn source_after(tried: Option<ConfigSource>, found: bool) -> Option<ConfigSource> {
    match tried {
        None => Some(ConfigSource::Steam),
        Some(_) if found => None,
        Some(ConfigSource::Steam) => Some(ConfigSource::Cache),
        Some(ConfigSource::Cache) => Some(ConfigSource::Headset),
        Some(ConfigSource::Headset) => None,
    }
}

/// The source to look into next, after looking into `tried` if that is one, and
/// whether there was a calibration.
pub fn next_source(tried: Option<ConfigSource>, found: bool) -> (next: Option<ConfigSource>)
    ensures
        next == source_after(tried, found),
{
    match tried {
        None => Some(ConfigSource::Steam),
        Some(source) => {
            if found {
                None
            } else {
                match source {
                    ConfigSource::Steam => Some(ConfigSource::Cache),
                    ConfigSource::Cache => Some(ConfigSource::Headset),
                    ConfigSource::Headset => None,
                }
            }
        },
    }
}

/// The calibration to use: the first one of what Steam, the cache and the headset
/// have, if there is a headset at all.
pub open spec fn calibration_for(
    has_headset: bool,
    steam: Option<StereoCamera>,
    cache: Option<StereoCamera>,
    headset: Option<StereoCamera>,
) -> Option<StereoCamera> {
    if !has_headset {
        None
    } else if steam is Some {
        steam
    } else if cache is Some {
        cache
    } else {
        headset
    }
}

/// Try to find the calibration for index: the first one that Steam, the cache
/// and the headset, in this order, have to offer. There is none without a
/// headset, whatever the files say.
pub fn find_steam_config(
    devices: &[DeviceInfo],
    steam: Option<StereoCamera>,
    cache: Option<StereoCamera>,
    headset: Option<StereoCamera>,
) -> (calibration: Option<StereoCamera>)
    ensures
        calibration == calibration_for(
            exists|i: int| #[trigger] is_headset_to_use(devices@, i),
            steam,
            cache,
            headset,
        ),
{
    match find_headset(devices) {
        Ok(found) => {
            assert(is_headset_to_use(devices@, found.device as int));
        },
        Err(_) => {
            return None;
        },
    }
    let mut found: Option<StereoCamera> = None;
    let mut source = next_source(None, false);
    let mut left: u8 = 3;
    while source.is_some()
        invariant
            match source {
                Some(ConfigSource::Steam) => left == 3 && found is None,
                Some(ConfigSource::Cache) => left == 2 && steam is None && found is None,
                Some(ConfigSource::Headset) => left == 1 && steam is None && cache is None
                    && found is None,
                None => found == (if steam is Some {
                    steam
                } else if cache is Some {
                    cache
                } else {
                    headset
                }),
            },
        decreases left,
    {
        found =
        match source.unwrap() {
            ConfigSource::Steam => steam,
            ConfigSource::Cache => cache,
            ConfigSource::Headset => headset,
        };
        source = next_source(source, found.is_some());
        left = left - 1;
    }
    found
}

/// What Steam has counts before what is in the cache, and that before what the
/// headset says. Without a headset nothing counts.
pub proof fn calibrations_count_in_order(
    steam: Option<StereoCamera>,
    cache: Option<StereoCamera>,
    headset: Option<StereoCamera>,
    found: StereoCamera,
)
    ensures
        calibration_for(false, steam, cache, headset) is None,
        calibration_for(true, Some(found), cache, headset) == Some(found),
        calibration_for(true, None, Some(found), headset) == Some(found),
        calibration_for(true, None, None, headset) == headset,
{
}

/// The sources are looked into one after the other, each of them once, and none is
/// looked into once a calibration was found.
pub proof fn sources_are_looked_into_in_order()
    ensures
        source_after(None, false) == Some(ConfigSource::Steam),
        source_after(Some(ConfigSource::Steam), false) == Some(ConfigSource::Cache),
        source_after(Some(ConfigSource::Cache), false) == Some(ConfigSource::Headset),
        source_after(Some(ConfigSource::Headset), false) is None,
        source_after(Some(ConfigSource::Steam), true) is None,
        source_after(Some(ConfigSource::Cache), true) is None,
        source_after(Some(ConfigSource::Headset), true) is None,
{
}

/// The directory with the small letter counts before the one with the capital.
pub proof fn small_letter_counts_first<T>(lower: T, upper: Option<T>)
    ensures
        chosen_directory(Some(lower), upper) == Some(lower),
        chosen_directory(None, upper) == upper,
{
}

/// Of several cameras with a name the first one counts, and it does not matter what
/// follows it.
pub proof fn first_camera_of_a_name_counts(cameras: Seq<TrackedCamera>, name: Camera, i: int)
    requires
        0 <= i < cameras.len(),
        cameras[i].name == name,
        forall|j: int| 0 <= j < i ==> (#[trigger] cameras[j]).name != name,
    ensures
        first_camera(cameras, name) == Some(cameras[i]),
    decreases cameras.len(),
{
    if i > 0 {
        let rest = cameras.skip(1);
        assert(rest[i - 1] == cameras[i]);
        assert forall|j: int| 0 <= j < i - 1 implies (#[trigger] rest[j]).name != name by {
            assert(rest[j] == cameras[j + 1]);
        }
        assert(cameras[0].name != name);
        first_camera_of_a_name_counts(rest, name, i - 1);
    }
}

/// A calibration is the first left and the first right camera of the configuration.
pub proof fn calibration_is_the_first_of_each(cameras: Seq<TrackedCamera>, i: int, j: int)
    requires
        0 <= i < cameras.len(),
        0 <= j < cameras.len(),
        cameras[i].name == Camera::Left,
        cameras[j].name == Camera::Right,
        forall|k: int| 0 <= k < i ==> (#[trigger] cameras[k]).name != Camera::Left,
        forall|k: int| 0 <= k < j ==> (#[trigger] cameras[k]).name != Camera::Right,
    ensures
        stereo_of(cameras) == Ok::<StereoCamera, StereoError>(
            StereoCamera { left: cameras[i], right: cameras[j] },
        ),
{
    first_camera_of_a_name_counts(cameras, Camera::Left, i);
    first_camera_of_a_name_counts(cameras, Camera::Right, j);
}

/// Where the left camera is missing, that is what is noticed, whether or not the
/// right one is missing too. What is noticed is what Steam's configuration fails
/// with, and only a configuration that was understood can fail so.
pub proof fn missing_cameras_are_named(config: LighthouseConfig)
    ensures
        ({
            let cameras = config.tracked_cameras@;
            let result = steam_result(SteamFile::Parsed(config));
            let without_left = forall|i: int|
                0 <= i < cameras.len() ==> (#[trigger] cameras[i]).name != Camera::Left;
            let without_right = forall|i: int|
                0 <= i < cameras.len() ==> (#[trigger] cameras[i]).name != Camera::Right;
            &&& without_left ==> result == Err::<StereoCamera, SteamError>(
                SteamError::Incomplete(StereoError::NoLeftCamera),
            )
            &&& !without_left && without_right ==> result == Err::<StereoCamera, SteamError>(
                SteamError::Incomplete(StereoError::NoRightCamera),
            )
            &&& !without_left && !without_right ==> result is Ok
        }),
        steam_result(SteamFile::NoDirectory) == Err::<StereoCamera, SteamError>(
            SteamError::NoDirectory,
        ),
        steam_result(SteamFile::Unreadable) == Err::<StereoCamera, SteamError>(
            SteamError::Unreadable,
        ),
        steam_result(SteamFile::Malformed) == Err::<StereoCamera, SteamError>(
            SteamError::Malformed,
        ),
{
    lemma_first_camera(config.tracked_cameras@, Camera::Left);
    lemma_first_camera(config.tracked_cameras@, Camera::Right);
}

/// Steam keeps a headset's configuration in a directory of its own, named by the
/// serial number with its capitals made small and nothing else changed.
pub proof fn steam_directory_is_the_small_serial(serial: Seq<u8>)
    ensures
        ({
            let path = steam_path(serial);
            &&& path.len() == 4
            &&& path[0] == encode_utf8("config"@)
            &&& path[1] == encode_utf8("lighthouse"@)
            &&& path[3] == encode_utf8("config.json"@)
            &&& path[2].len() == serial.len()
            &&& forall|i: int|
                0 <= i < serial.len() ==> #[trigger] path[2][i] == (if 65 <= serial[i] <= 90 {
                    (serial[i] + 32) as u8
                } else {
                    serial[i]
                })
        }),
{
}

} // verus!
