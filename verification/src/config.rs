//! User configuration, the signed pipeline cache file, and the splash image.
use crate::bytes::{copy_range, push_all};
use crate::signature::{
    decodes_as_key, generate_secret_key, sign, verify_strict, verifying_key, PUBLIC_KEY_LENGTH,
    SIGNATURE_LENGTH,
};
use crate::vulkan::{Format, ImagePlan, ImageUsage};
use vstd::prelude::*;

verus! {

use crate::signature::{
    has_neutral_nonce, key_decodes, signature_of, strictly_verifies, verifying_key_of,
};

/// Name of the configuration file, below the user's configuration directory.
pub const CONFIG_FILE: &'static str = "index_camera_passthrough.toml";

/// Directory of the pipeline cache file, below the user's cache directory.
pub const PIPELINE_CACHE_DIRECTORY: &'static str = "xr_passthrough";

/// Name of the pipeline cache file.
pub const PIPELINE_CACHE_FILE: &'static str = "pipeline_cache";

/// Because your eye and the camera is at different physical locations, it is impossible
/// to project camera view into VR space perfectly. There are trade offs approximating
/// this projection. (viewing range means things too close to you will give you double vision).
#[derive(Eq, PartialEq, Debug, Clone, Copy, PartialOrd, Ord, Structural)]
pub enum ProjectionMode {
    /// in this mode, we assume your eyes are at the cameras' physical location. this mode
    /// has larger viewing range, but everything will smaller to you.
    FromCamera,
    /// in this mode, we assume your cameras are at your eyes' physical location. everything will
    /// have the right scale in this mode, but the viewing range is smaller.
    FromEye,
}

impl Default for ProjectionMode {
    fn default() -> (mode: Self)
        ensures
            mode == ProjectionMode::FromCamera,
    {
        ProjectionMode::FromCamera
    }
}

/// One of the user's eyes.
#[derive(Debug, Eq, PartialEq, Clone, Copy, PartialOrd, Ord, Structural)]
pub enum Eye {
    Left,
    Right,
}

/// The eye that is shown on the desktop unless the user chooses otherwise.
pub fn default_display_eye() -> (eye: Eye)
    ensures
        eye == Eye::Left,
{
    Eye::Left
}

/// Index camera passthrough
#[derive(Debug)]
pub struct Config {
    /// camera device to use. auto detect if not set
    pub camera_device: String,
    /// enable debug option, including:
    ///   - use trigger button to do renderdoc capture
    pub debug: bool,
}

/// What a [`Config`] says.
pub struct ConfigView {
    pub camera_device: Seq<char>,
    pub debug: bool,
}

impl View for Config {
    type V = ConfigView;

    open spec fn view(&self) -> ConfigView {
        ConfigView { camera_device: self.camera_device@, debug: self.debug }
    }
}

/// The configuration that holds where the user wrote none: no camera device is
/// named and debugging is off.
pub open spec fn default_config() -> ConfigView {
    ConfigView { camera_device: Seq::empty(), debug: false }
}

impl Default for Config {
    fn default() -> (config: Self)
        ensures
            config@ == default_config(),
    {
        Config { camera_device: String::new(), debug: false }
    }
}

/// Settings, each of which has its default where it is left out.
pub open spec fn settings_or_defaults(camera_device: Option<String>, debug: Option<bool>) -> ConfigView {
    ConfigView {
        camera_device: match camera_device {
            Some(device) => device@,
            None => default_config().camera_device,
        },
        debug: match debug {
            Some(on) => on,
            None => default_config().debug,
        },
    }
}

/// A setting that is made holds, whatever is left out beside it; one that is left out
/// is quiet.
pub proof fn settings_hold_where_they_are_made(
    camera_device: Option<String>,
    debug: Option<bool>,
    device: String,
    on: bool,
)
    ensures
        settings_or_defaults(Some(device), debug).camera_device == device@,
        settings_or_defaults(camera_device, Some(on)).debug == on,
        settings_or_defaults(None, debug).camera_device.len() == 0,
        !settings_or_defaults(camera_device, None).debug,
{
}

impl Config {
    /// The configuration of a file that may leave settings out: each setting
    /// that is left out has its default.
    pub fn from_settings(camera_device: Option<String>, debug: Option<bool>) -> (config: Self)
        ensures
            config@ == settings_or_defaults(camera_device, debug),
    {
        let mut config = Config::default();
        if let Some(device) = camera_device {
            config.camera_device = device;
        }
        if let Some(on) = debug {
            config.debug = on;
        }
        config
    }
}

/// What was found where the configuration file should be.
#[derive(Debug)]
pub enum ConfigFile {
    /// There is no such file.
    Missing,
    /// There is one, but it could not be read.
    Unreadable,
    /// It was read, and is no valid configuration.
    Malformed,
    /// It was read and understood.
    Parsed(Config),
}

/// Why no configuration could be loaded.
#[derive(Debug, Eq, PartialEq, Clone, Copy, Structural)]
pub enum ConfigError {
    Unreadable,
    Malformed,
}

/// The configuration to run with. A missing file is no error: the defaults
/// hold. A file that is there has to be readable and valid.
pub fn load_config(file: ConfigFile) -> (config: Result<Config, ConfigError>)
    ensures
        match file {
            ConfigFile::Missing => config is Ok && config->Ok_0@ == default_config(),
            ConfigFile::Parsed(parsed) => config == Ok::<Config, ConfigError>(parsed),
            ConfigFile::Unreadable => config == Err::<Config, ConfigError>(ConfigError::Unreadable),
            ConfigFile::Malformed => config == Err::<Config, ConfigError>(ConfigError::Malformed),
        },
{
    match file {
        ConfigFile::Missing => Ok(Config::default()),
        ConfigFile::Parsed(parsed) => Ok(parsed),
        ConfigFile::Unreadable => Err(ConfigError::Unreadable),
        ConfigFile::Malformed => Err(ConfigError::Malformed),
    }
}

/// The three parts of a pipeline cache file.
#[derive(Debug)]
pub struct CacheFile {
    /// Encoding of the key that checks the signature.
    pub key: [u8; 32],
    /// Signature of `data`.
    pub signature: [u8; 64],
    /// The pipeline cache itself, in the driver's own format.
    pub data: Vec<u8>,
}

/// The bytes of a cache file: the verifying key, the signature, then the data.
pub open spec fn cache_file_bytes(key: Seq<u8>, signature: Seq<u8>, data: Seq<u8>) -> Seq<u8> {
    key + signature + data
}

/// Number of bytes in front of the data in a cache file.
pub open spec fn cache_header_length() -> int {
    PUBLIC_KEY_LENGTH + SIGNATURE_LENGTH
}

/// The data that a cache file vouches for: its bytes behind the header, if
/// there is a whole header, its key decodes, and its signature of the data
/// holds under that key.
pub open spec fn cache_payload(file: Seq<u8>) -> Option<Seq<u8>> {
    let key = file.take(PUBLIC_KEY_LENGTH as int);
    let signature = file.subrange(PUBLIC_KEY_LENGTH as int, cache_header_length());
    let data = file.skip(cache_header_length());
    if file.len() >= cache_header_length() && key_decodes(key) && strictly_verifies(
        key,
        data,
        signature,
    ) {
        Some(data)
    } else {
        None
    }
}

/// The file that keeps `data` under the key of `secret`.
pub open spec fn sealed_cache(secret: Seq<u8>, data: Seq<u8>) -> Seq<u8> {
    cache_file_bytes(verifying_key_of(secret), signature_of(secret, data), data)
}

impl CacheFile {
    /// Lays the parts out as a file.
    pub fn to_bytes(&self) -> (file: Vec<u8>)
        ensures
            file@ == cache_file_bytes(self.key@, self.signature@, self.data@),
    {
        let mut file: Vec<u8> = Vec::new();
        push_all(&mut file, self.key.as_slice());
        push_all(&mut file, self.signature.as_slice());
        push_all(&mut file, self.data.as_slice());
        assert(file@ =~= cache_file_bytes(self.key@, self.signature@, self.data@));
        file
    }

    /// Takes a file apart. A file too short for the key and the signature has
    /// no parts.
    pub fn from_bytes(file: &[u8]) -> (parts: Option<CacheFile>)
        ensures
            parts is Some <==> file@.len() >= cache_header_length(),
            parts matches Some(p) ==> {
                &&& p.key@ == file@.take(PUBLIC_KEY_LENGTH as int)
                &&& p.signature@ == file@.subrange(
                    PUBLIC_KEY_LENGTH as int,
                    cache_header_length(),
                )
                &&& p.data@ == file@.skip(cache_header_length())
            },
    {
        if file.len() < PUBLIC_KEY_LENGTH + SIGNATURE_LENGTH {
            return None;
        }
        let mut key: [u8; 32] = [0u8; 32];
        let mut i: usize = 0;
        while i < 32
            invariant
                i <= 32,
                file@.len() >= 96,
                forall|j: int| 0 <= j < i ==> key@[j] == file@[j],
            decreases 32 - i,
        {
            key[i] = file[i];
            i += 1;
        }
        let mut signature: [u8; 64] = [0u8; 64];
        let mut k: usize = 0;
        while k < 64
            invariant
                k <= 64,
                file@.len() >= 96,
                forall|j: int| 0 <= j < k ==> signature@[j] == file@[32 + j],
            decreases 64 - k,
        {
            signature[k] = file[32 + k];
            k += 1;
        }
        let data = copy_range(file, PUBLIC_KEY_LENGTH + SIGNATURE_LENGTH, file.len());
        assert(key@ =~= file@.take(32));
        assert(signature@ =~= file@.subrange(32, 96));
        assert(data@ =~= file@.skip(96));
        Some(CacheFile { key, signature, data })
    }

    /// The data, if both checks on the file came out well.
    pub fn into_payload(self, key_ok: bool, signature_ok: bool) -> (data: Option<Vec<u8>>)
        ensures
            data == (if key_ok && signature_ok {
                Some(self.data)
            } else {
                None
            }),
    {
        if key_ok && signature_ok {
            Some(self.data)
        } else {
            None
        }
    }
}

/// Contents of a pipeline cache that are written back to disk when the cache is
/// no longer used.
#[derive(Debug)]
pub struct AutoSavingPipelineCache {
    /// The cache's contents, as the driver hands them out.
    pub data: Vec<u8>,
}

impl AutoSavingPipelineCache {
    /// The bytes of the file that keeps the cache, under a key made for this
    /// one file: the verifying key, the signature, then the contents. Reading
    /// the file gives the contents back (save for the one signature in 2^252
    /// whose first half is the neutral element, which the check on reading
    /// turns away).
    pub fn save(&self) -> (file: Vec<u8>)
        ensures
            exists|secret: Seq<u8>|
                {
                    &&& secret.len() == 32
                    &&& #[trigger] sealed_cache(secret, self.data@) == file@
                    &&& !has_neutral_nonce(signature_of(secret, self.data@)) ==> cache_payload(
                        file@,
                    ) == Some(self.data@)
                },
    {
        let secret = generate_secret_key();
        self.save_with_key(&secret)
    }

    /// The bytes of the file that keeps the cache under the key of `secret`.
    pub fn save_with_key(&self, secret: &[u8; 32]) -> (file: Vec<u8>)
        ensures
            file@ == sealed_cache(secret@, self.data@),
            !has_neutral_nonce(signature_of(secret@, self.data@)) ==> cache_payload(file@) == Some(
                self.data@,
            ),
    {
        let key = verifying_key(secret);
        let signature = sign(secret, self.data.as_slice());
        let parts = CacheFile { key, signature, data: copy_range(self.data.as_slice(), 0, self.data.len()) };
        assert(parts.data@ =~= self.data@);
        let file = parts.to_bytes();
        assert(file@.take(32) =~= key@);
        assert(file@.subrange(32, 96) =~= signature@);
        assert(file@.skip(96) =~= self.data@);
        file
    }
}

/// The pipeline cache contents to start from, given the cache file's bytes if
/// there is one that could be read. If the file is not found or fails
/// validation, there are none, and the pipeline cache starts empty.
pub fn load_pipeline_cache(file: Option<Vec<u8>>) -> (initial: Option<Vec<u8>>)
    ensures
        match file {
            None => initial is None,
            Some(bytes) => match cache_payload(bytes@) {
                Some(data) => initial is Some && initial->Some_0@ == data,
                None => initial is None,
            },
        },
{
    let file = match file {
        Some(file) => file,
        None => return None,
    };
    let parts = match CacheFile::from_bytes(file.as_slice()) {
        Some(parts) => parts,
        None => return None,
    };
    let key_ok = decodes_as_key(&parts.key);
    let signature_ok = key_ok && verify_strict(&parts.key, parts.data.as_slice(), &parts.signature);
    parts.into_payload(key_ok, signature_ok)
}

/// An image in memory: four bytes (red, green, blue, alpha) for each pixel, row
/// by row.
#[derive(Debug)]
pub struct Picture {
    pub width: u32,
    pub height: u32,
    pub pixels: Vec<u8>,
}

/// Width, height and pixels of the image that the bytes of a PNG file hold, if
/// they are well-formed.
pub uninterp spec fn png_picture(file: Seq<u8>) -> Option<(u32, u32, Seq<u8>)>;

/// Decodes a PNG file.
///
/// Calls `image::load_from_memory_with_format` and turns what it returns into
/// eight bits each of red, green, blue and alpha (`into_rgba8`). The picture
/// depends on the bytes alone, and has four bytes for each of its pixels.
#[verifier::external_body]
fn decode_png(file: &[u8]) -> (picture: Option<Picture>)
    ensures
        match png_picture(file@) {
            Some((width, height, pixels)) => picture matches Some(p) && p.width == width
                && p.height == height && p.pixels@ == pixels,
            None => picture is None,
        },
        picture matches Some(p) ==> p.pixels@.len() == 4 * p.width * p.height,
{
    let decoded = image::load_from_memory_with_format(file, image::ImageFormat::Png);
    let image = decoded.ok()?.into_rgba8();
    Some(Picture { width: image.width(), height: image.height(), pixels: image.into_raw() })
}

/// What it takes to put the splash image on the graphics card: fill a buffer
/// with `contents`, and copy the buffer to the image.
#[derive(Debug)]
pub struct SplashUpload {
    pub image: ImagePlan,
    pub contents: Vec<u8>,
}

/// An image that a picture can be copied to, and that can then be drawn from
/// and copied from.
pub open spec fn splash_image(width: u32, height: u32) -> ImagePlan {
    ImagePlan {
        format: Format::R8G8B8A8Unorm,
        width,
        height,
        array_layers: 1,
        usage: ImageUsage {
            transfer_dst: true,
            transfer_src: true,
            sampled: true,
            ..ImageUsage::spec_none()
        },
    }
}

/// How to put a picture on the graphics card.
pub fn splash_upload(picture: Picture) -> (upload: SplashUpload)
    ensures
        upload.image == splash_image(picture.width, picture.height),
        upload.contents == picture.pixels,
{
    let mut usage = ImageUsage::none();
    usage.transfer_dst = true;
    usage.transfer_src = true;
    usage.sampled = true;
    SplashUpload {
        image: ImagePlan {
            format: Format::R8G8B8A8Unorm,
            width: picture.width,
            height: picture.height,
            array_layers: 1,
            usage,
        },
        contents: picture.pixels,
    }
}

/// How to put the splash image, a PNG file, on the graphics card. Nothing can
/// be done with a file that does not decode. The buffer is as long as the image
/// takes.
pub fn load_splash(file: &[u8]) -> (upload: Option<SplashUpload>)
    ensures
        match png_picture(file@) {
            Some((width, height, pixels)) => {
                &&& upload matches Some(u)
                &&& u.image == splash_image(width, height)
                &&& u.contents@ == pixels
                &&& u.contents@.len() == 4 * width * height
            },
            None => upload is None,
        },
{
    match decode_png(file) {
        Some(picture) => Some(splash_upload(picture)),
        None => None,
    }
}

/// A cache file holds the key in its first 32 bytes, the signature in the next 64,
/// and the data behind them. The data is had from it exactly where the key decodes
/// and the signature of the data holds under it.
pub proof fn cache_files_have_three_parts(key: Seq<u8>, signature: Seq<u8>, data: Seq<u8>)
    requires
        key.len() == 32,
        signature.len() == 64,
    ensures
        ({
            let file = cache_file_bytes(key, signature, data);
            &&& file.len() == 96 + data.len()
            &&& file.take(32) == key
            &&& file.subrange(32, 96) == signature
            &&& file.skip(96) == data
            &&& cache_payload(file) == (if key_decodes(key) && strictly_verifies(
                key,
                data,
                signature,
            ) {
                Some(data)
            } else {
                None
            })
        }),
{
    let file = cache_file_bytes(key, signature, data);
    assert(file.take(32) =~= key);
    assert(file.subrange(32, 96) =~= signature);
    assert(file.skip(96) =~= data);
}

/// A file that is too short for a key and a signature vouches for nothing.
pub proof fn short_cache_files_vouch_for_nothing(file: Seq<u8>)
    requires
        file.len() < 96,
    ensures
        cache_payload(file) is None,
{
}

/// What is sealed is the data itself, with the key and the signature of the same
/// secret.
pub proof fn sealed_caches_hold_the_data(secret: Seq<u8>, data: Seq<u8>)
    requires
        verifying_key_of(secret).len() == 32,
        signature_of(secret, data).len() == 64,
    ensures
        sealed_cache(secret, data).take(32) == verifying_key_of(secret),
        sealed_cache(secret, data).subrange(32, 96) == signature_of(secret, data),
        sealed_cache(secret, data).skip(96) == data,
{
    cache_files_have_three_parts(verifying_key_of(secret), signature_of(secret, data), data);
}

/// The splash image has the picture's size and one pixel of four bytes for each of
/// the picture's. It can be copied to, copied from and drawn from, and no more.
pub proof fn splash_image_suits_the_picture(width: u32, height: u32)
    ensures
        ({
            let image = splash_image(width, height);
            &&& image.width == width && image.height == height && image.array_layers == 1
            &&& image.format == Format::R8G8B8A8Unorm
            &&& image.usage.transfer_dst && image.usage.transfer_src && image.usage.sampled
            &&& !image.usage.color_attachment && !image.usage.depth_stencil_attachment
        }),
{
}

/// Where the user says nothing, no camera device is named and debugging is off.
pub proof fn defaults_are_quiet()
    ensures
        default_config().camera_device.len() == 0,
        !default_config().debug,
{
}

} // verus!
