//! The parts of Vulkan that decisions are made about: image formats, image
//! usages, sizes and API versions.
use vstd::prelude::*;

verus! {

/// A pair of unsigned numbers: a size in pixels.
#[derive(Debug, Eq, PartialEq, Clone, Copy, Structural)]
pub struct UVec2 {
    pub x: u32,
    pub y: u32,
}

impl UVec2 {
    pub fn new(x: u32, y: u32) -> (v: Self)
        ensures
            v.x == x,
            v.y == y,
    {
        UVec2 { x, y }
    }
}

/// The image formats that this library asks for.
#[derive(Debug, Eq, PartialEq, Clone, Copy, Structural)]
pub enum Format {
    R8G8B8Unorm,
    B8G8R8Unorm,
    R8G8B8A8Unorm,
    R8G8B8A8Srgb,
    B8G8R8A8Unorm,
    B8G8R8A8Srgb,
    D16Unorm,
    D32Sfloat,
    D16UnormS8Uint,
    D24UnormS8Uint,
    D32SfloatS8Uint,
    /// Two pixels that share their chroma, as a YUYV camera delivers them.
    G8B8G8R8_422Unorm,
}

impl Format {
    /// The number that Vulkan gives the format.
    pub open spec fn spec_code(self) -> u32 {
        match self {
            Format::R8G8B8Unorm => 23,
            Format::B8G8R8Unorm => 30,
            Format::R8G8B8A8Unorm => 37,
            Format::R8G8B8A8Srgb => 43,
            Format::B8G8R8A8Unorm => 44,
            Format::B8G8R8A8Srgb => 50,
            Format::D16Unorm => 124,
            Format::D32Sfloat => 126,
            Format::D16UnormS8Uint => 128,
            Format::D24UnormS8Uint => 129,
            Format::D32SfloatS8Uint => 130,
            Format::G8B8G8R8_422Unorm => 1000156000,
        }
    }

    /// The number that Vulkan gives the format.
    pub fn code(self) -> (code: u32)
        ensures
            code == self.spec_code(),
    {
        match self {
            Format::R8G8B8Unorm => 23,
            Format::B8G8R8Unorm => 30,
            Format::R8G8B8A8Unorm => 37,
            Format::R8G8B8A8Srgb => 43,
            Format::B8G8R8A8Unorm => 44,
            Format::B8G8R8A8Srgb => 50,
            Format::D16Unorm => 124,
            Format::D32Sfloat => 126,
            Format::D16UnormS8Uint => 128,
            Format::D24UnormS8Uint => 129,
            Format::D32SfloatS8Uint => 130,
            Format::G8B8G8R8_422Unorm => 1000156000,
        }
    }
}

/// Two formats never share a number.
pub proof fn format_codes_are_distinct(a: Format, b: Format)
    requires
        a.spec_code() == b.spec_code(),
    ensures
        a == b,
{
}

/// Whether a number is that of a format which `vulkano` knows.
pub uninterp spec fn format_is_known(code: u32) -> bool;

/// Whether `code` is the number of a format.
///
/// Calls the `TryFrom<ash::vk::Format>` of `vulkano::format::Format`, which
/// looks the number up in a fixed table.
#[verifier::external_body]
pub(crate) fn is_known_format(code: u32) -> (known: bool)
    ensures
        known == format_is_known(code),
{
    vulkano::format::Format::try_from(ash::vk::Format::from_raw(code as i32)).is_ok()
}

/// Whether every number in a list is that of a format.
pub open spec fn formats_are_known(codes: Seq<u32>) -> bool {
    forall|i: int| 0 <= i < codes.len() ==> format_is_known(#[trigger] codes[i])
}

/// Whether every number in `codes` is that of a format.
pub fn all_formats_known(codes: &[u32]) -> (known: bool)
    ensures
        known == formats_are_known(codes@),
{
    let mut i: usize = 0;
    while i < codes.len()
        invariant
            i <= codes@.len(),
            forall|j: int| 0 <= j < i ==> format_is_known(#[trigger] codes@[j]),
        decreases codes.len() - i,
    {
        if !is_known_format(codes[i]) {
            assert(!format_is_known(codes@[i as int]));
            return false;
        }
        i += 1;
    }
    true
}

/// The first of `preferred` whose number is among `supported`.
pub open spec fn first_supported(preferred: Seq<Format>, supported: Seq<u32>) -> Option<Format>
    decreases preferred.len(),
{
    if preferred.len() == 0 {
        None
    } else if supported.contains(preferred[0].spec_code()) {
        Some(preferred[0])
    } else {
        first_supported(preferred.skip(1), supported)
    }
}

/// The first of `preferred` whose number is among `supported`.
pub fn select_format(preferred: &[Format], supported: &[u32]) -> (format: Option<Format>)
    ensures
        format == first_supported(preferred@, supported@),
{
    let mut i: usize = 0;
    assert(preferred@.skip(0) =~= preferred@);
    while i < preferred.len()
        invariant
            i <= preferred@.len(),
            first_supported(preferred@, supported@) == first_supported(
                preferred@.skip(i as int),
                supported@,
            ),
        decreases preferred.len() - i,
    {
        let code: u32 = preferred[i].code();
        let mut found: bool = false;
        let mut k: usize = 0;
        while k < supported.len()
            invariant
                k <= supported@.len(),
                found ==> supported@.contains(code),
                !found ==> forall|j: int| 0 <= j < k ==> supported@[j] != code,
            decreases supported.len() - k,
        {
            if supported[k] == code {
                assert(supported@[k as int] == code);
                found = true;
            }
            k += 1;
        }
        assert(preferred@.skip(i as int)[0] == preferred@[i as int]);
        assert(preferred@.skip(i as int).skip(1) =~= preferred@.skip(i + 1));
        if found {
            return Some(preferred[i]);
        }
        i += 1;
    }
    None
}

/// What [`first_supported`] finds is preferred and supported, and everything
/// that is preferred more is not supported. Where it finds nothing, nothing
/// that is preferred is supported.
pub proof fn first_supported_is_the_best(preferred: Seq<Format>, supported: Seq<u32>)
    ensures
        match first_supported(preferred, supported) {
            Some(format) => exists|i: int|
                {
                    &&& 0 <= i < preferred.len()
                    &&& #[trigger] preferred[i] == format
                    &&& supported.contains(format.spec_code())
                    &&& forall|j: int|
                        0 <= j < i ==> !supported.contains((#[trigger] preferred[j]).spec_code())
                },
            None => forall|j: int|
                0 <= j < preferred.len() ==> !supported.contains(
                    (#[trigger] preferred[j]).spec_code(),
                ),
        },
    decreases preferred.len(),
{
    if preferred.len() > 0 && !supported.contains(preferred[0].spec_code()) {
        let rest = preferred.skip(1);
        first_supported_is_the_best(rest, supported);
        match first_supported(rest, supported) {
            Some(format) => {
                let i = choose|i: int|
                    {
                        &&& 0 <= i < rest.len()
                        &&& #[trigger] rest[i] == format
                        &&& supported.contains(format.spec_code())
                        &&& forall|j: int|
                            0 <= j < i ==> !supported.contains((#[trigger] rest[j]).spec_code())
                    };
                assert(preferred[i + 1] == format);
                assert forall|j: int| 0 <= j < i + 1 implies !supported.contains(
                    (#[trigger] preferred[j]).spec_code(),
                ) by {
                    if j > 0 {
                        assert(preferred[j] == rest[j - 1]);
                    }
                }
            },
            None => {
                assert forall|j: int| 0 <= j < preferred.len() implies !supported.contains(
                    (#[trigger] preferred[j]).spec_code(),
                ) by {
                    if j > 0 {
                        assert(preferred[j] == rest[j - 1]);
                    }
                }
            },
        }
    } else if preferred.len() > 0 {
        assert(preferred[0] == first_supported(preferred, supported)->Some_0);
    }
}

/// What an image may be used for.
#[derive(Debug, Eq, PartialEq, Clone, Copy, Structural)]
pub struct ImageUsage {
    pub transfer_src: bool,
    pub transfer_dst: bool,
    pub sampled: bool,
    pub color_attachment: bool,
    pub depth_stencil_attachment: bool,
}

impl ImageUsage {
    /// No use at all.
    pub open spec fn spec_none() -> ImageUsage {
        ImageUsage {
            transfer_src: false,
            transfer_dst: false,
            sampled: false,
            color_attachment: false,
            depth_stencil_attachment: false,
        }
    }

    /// No use at all.
    pub fn none() -> (usage: Self)
        ensures
            usage == ImageUsage::spec_none(),
    {
        ImageUsage {
            transfer_src: false,
            transfer_dst: false,
            sampled: false,
            color_attachment: false,
            depth_stencil_attachment: false,
        }
    }
}

/// An image to create: a two-dimensional image with one mip level.
#[derive(Debug, Eq, PartialEq, Clone, Copy, Structural)]
pub struct ImagePlan {
    pub format: Format,
    pub width: u32,
    pub height: u32,
    pub array_layers: u32,
    pub usage: ImageUsage,
}

/// A Vulkan API version.
#[derive(Debug, Eq, PartialEq, Clone, Copy, Structural)]
pub struct Version {
    pub major: u32,
    pub minor: u32,
    pub patch: u32,
}

impl Version {
    /// Whether a version is older than another: by major number, then by minor
    /// number, then by patch number.
    pub open spec fn older(self, other: Version) -> bool {
        ||| self.major < other.major
        ||| self.major == other.major && self.minor < other.minor
        ||| self.major == other.major && self.minor == other.minor && self.patch < other.patch
    }

    /// Whether the version fits in Vulkan's packed form.
    pub open spec fn packable(self) -> bool {
        self.major <= 0x3ff && self.minor <= 0x3ff && self.patch <= 0xfff
    }

    /// The version `major.minor.0`.
    pub fn major_minor(major: u32, minor: u32) -> (v: Self)
        ensures
            v.major == major,
            v.minor == minor,
            v.patch == 0,
    {
        Version { major, minor, patch: 0 }
    }

    /// Whether `self` is older than `other`.
    pub fn is_older_than(self, other: Version) -> (yes: bool)
        ensures
            yes == self.older(other),
    {
        if self.major != other.major {
            self.major < other.major
        } else if self.minor != other.minor {
            self.minor < other.minor
        } else {
            self.patch < other.patch
        }
    }

    /// The older one of two versions.
    pub fn min(self, other: Version) -> (v: Self)
        ensures
            v == (if other.older(self) {
                other
            } else {
                self
            }),
    {
        if other.is_older_than(self) {
            other
        } else {
            self
        }
    }

    /// Vulkan's packed form of the version.
    pub fn to_packed(self) -> (packed: Option<u32>)
        ensures
            packed is Some <==> self.packable(),
            packed matches Some(p) ==> p == self.major * 0x40_0000 + self.minor * 0x1000
                + self.patch,
    {
        if self.major <= 0x3ff && self.minor <= 0x3ff && self.patch <= 0xfff {
            Some(self.major * 0x40_0000 + self.minor * 0x1000 + self.patch)
        } else {
            None
        }
    }
}

/// Of any two versions one is older or they are the same, and never both.
pub proof fn versions_are_ordered(a: Version, b: Version, c: Version)
    ensures
        a.older(b) || b.older(a) || a == b,
        !(a.older(b) && b.older(a)),
        a.older(b) && b.older(c) ==> a.older(c),
{
}

/// Versions are compared by their major numbers, then by their minor numbers, then
/// by their patch numbers.
pub proof fn major_numbers_count_most(a: Version, b: Version)
    ensures
        a.major < b.major ==> a.older(b) && !b.older(a),
        a.major == b.major && a.minor < b.minor ==> a.older(b) && !b.older(a),
        a.major == b.major && a.minor == b.minor ==> (a.older(b) <==> a.patch < b.patch),
        !a.older(a),
{
}

/// A version can be packed exactly where ten bits take its major number, ten bits
/// its minor number and twelve bits its patch number.
pub proof fn packed_versions_have_their_bits(v: Version)
    ensures
        v.packable() <==> v.major < 1024 && v.minor < 1024 && v.patch < 4096,
{
}

/// The formats have the numbers that Vulkan gives them.
pub proof fn formats_have_vulkans_numbers()
    ensures
        Format::R8G8B8Unorm.spec_code() == 23,
        Format::B8G8R8Unorm.spec_code() == 30,
        Format::R8G8B8A8Unorm.spec_code() == 37,
        Format::R8G8B8A8Srgb.spec_code() == 43,
        Format::B8G8R8A8Unorm.spec_code() == 44,
        Format::B8G8R8A8Srgb.spec_code() == 50,
        Format::D16Unorm.spec_code() == 124,
        Format::D32Sfloat.spec_code() == 126,
        Format::D16UnormS8Uint.spec_code() == 128,
        Format::D24UnormS8Uint.spec_code() == 129,
        Format::D32SfloatS8Uint.spec_code() == 130,
        Format::G8B8G8R8_422Unorm.spec_code() == 1000156000,
{
}

} // verus!
