//! Setting OpenXR and Vulkan up for an application that draws for a headset: what
//! is created, and what it takes.
use crate::api_layer::frame::OPAQUE;
use crate::api_layer::session::{choose_color_format, max_u32, SwapchainPlan, ViewConfig};
use crate::vulkan::{
    all_formats_known, select_format, Format, ImagePlan, ImageUsage, UVec2, Version,
};
use crate::xr::XrErr;
use vstd::prelude::*;

verus! {

use crate::api_layer::session::{
    color_format_goes_by_number, larger, preferred_color_formats, target_usage,
};
use crate::vulkan::{first_supported, formats_are_known};

/// Name of the Vulkan layer that is always asked for.
pub const VALIDATION_LAYER: &'static str = "VK_LAYER_KHRONOS_validation";

/// Name of the Vulkan instance extension that is always asked for.
pub const SURFACE_EXTENSION: &'static str = "VK_KHR_surface";

/// What the library finds wrong during the setup.
#[derive(Debug, Eq, PartialEq, Clone, Copy, Structural)]
pub enum SetupError {
    /// The device's Vulkan version, which is older than the runtime takes.
    VersionUnsupported(Version),
    /// No queue family can draw.
    NoGraphicsQueue,
    /// A wanted instance extension, by its place, that is not supported.
    ExtensionUnsupported(usize),
    /// The runtime cannot hide the surroundings.
    NoOpaqueBlendMode,
    /// The runtime did not create the session.
    Session(XrErr),
    /// There are not exactly two views.
    UnexpectedViews,
    /// The runtime names a swapchain format that is none.
    UnknownFormat,
    /// No swapchain format will do.
    NoSuitableFormat,
}

/// The OpenXR extensions that an instance is created with.
#[derive(Debug, Eq, PartialEq, Clone, Copy, Structural)]
pub struct XrExtensions {
    pub htc_passthrough: bool,
    pub khr_composition_layer_depth: bool,
    pub khr_vulkan_enable: bool,
    pub khr_vulkan_enable2: bool,
    pub khr_convert_timespec_time: bool,
}

/// The device to create.
#[derive(Debug, Eq, PartialEq, Clone, Copy, Structural)]
pub struct DevicePlan {
    pub queue_family_index: u32,
    pub queue_index: u32,
    /// The extension for swapchains.
    pub khr_swapchain: bool,
    /// The extension for drawing both eyes at once.
    pub khr_multiview: bool,
    /// The feature for drawing both eyes at once.
    pub multiview: bool,
}

/// A Vulkan instance extension.
#[derive(Debug)]
pub struct InstanceExtension {
    pub name: String,
    /// The application asks for it.
    pub requested: bool,
    /// Vulkan offers it.
    pub supported: bool,
}

/// Whether an extension is wanted: the one for surfaces always is.
pub open spec fn is_wanted(extension: InstanceExtension) -> bool {
    extension.requested || extension.name@ == SURFACE_EXTENSION@
}

/// Whether the extension for surfaces is in a list.
pub open spec fn lists_surface(extensions: Seq<InstanceExtension>) -> bool {
    exists|i: int|
        0 <= i < extensions.len() && (#[trigger] extensions[i]).name@ == SURFACE_EXTENSION@
}

/// Whether every wanted extension is supported.
pub open spec fn all_supported(extensions: Seq<InstanceExtension>) -> bool {
    forall|i: int|
        0 <= i < extensions.len() && is_wanted(#[trigger] extensions[i])
            ==> extensions[i].supported
}

/// Whether the extension at a place is wanted, not supported, and the first one of
/// that kind.
pub open spec fn is_first_unsupported(extensions: Seq<InstanceExtension>, i: int) -> bool {
    &&& 0 <= i < extensions.len()
    &&& is_wanted(extensions[i])
    &&& !extensions[i].supported
    &&& forall|j: int|
        0 <= j < i && is_wanted(#[trigger] extensions[j]) ==> extensions[j].supported
}

/// Places of the wanted ones among the first `n` extensions.
pub open spec fn wanted_places(extensions: Seq<InstanceExtension>, n: nat) -> Seq<usize>
    decreases n,
{
    if n == 0 {
        Seq::empty()
    } else {
        let before = wanted_places(extensions, (n - 1) as nat);
        if is_wanted(extensions[n - 1]) {
            before.push((n - 1) as usize)
        } else {
            before
        }
    }
}

/// The Vulkan instance to create.
#[derive(Debug)]
pub struct InstancePlan {
    /// Places of the extensions to enable.
    pub enabled: Vec<usize>,
    pub api_version: Version,
    /// `api_version` in Vulkan's packed form.
    pub packed_version: u32,
}

/// What an [`InstancePlan`] says.
#[verifier::ext_equal]
pub struct InstancePlanView {
    pub enabled: Seq<usize>,
    pub api_version: Version,
    pub packed_version: u32,
}

impl View for InstancePlan {
    type V = InstancePlanView;

    open spec fn view(&self) -> InstancePlanView {
        InstancePlanView {
            enabled: self.enabled@,
            api_version: self.api_version,
            packed_version: self.packed_version,
        }
    }
}

/// The Vulkan version of an instance: the highest that the runtime takes, but
/// no higher than what the Vulkan library has.
pub open spec fn instance_version(max_major: u32, max_minor: u32, library: Version) -> Version {
    let highest = Version { major: max_major, minor: max_minor, patch: 0 };
    if library.older(highest) {
        library
    } else {
        highest
    }
}

/// The Vulkan instance to create, if all wanted extensions are supported.
pub open spec fn instance_plan_for(
    extensions: Seq<InstanceExtension>,
    max_major: u32,
    max_minor: u32,
    library: Version,
) -> Result<InstancePlanView, SetupError> {
    if all_supported(extensions) {
        let version = instance_version(max_major, max_minor, library);
        Ok(
            InstancePlanView {
                enabled: wanted_places(extensions, extensions.len()),
                api_version: version,
                packed_version: (version.major * 0x40_0000 + version.minor * 0x1000
                    + version.patch) as u32,
            },
        )
    } else {
        let place = choose|i: int| #[trigger] is_first_unsupported(extensions, i);
        Err(SetupError::ExtensionUnsupported(place as usize))
    }
}

/// Whether the queue family at a place can draw, and none before it can.
pub open spec fn is_first_drawing(draws: Seq<bool>, i: int) -> bool {
    &&& 0 <= i < draws.len()
    &&& draws[i]
    &&& forall|j: int| 0 <= j < i ==> !(#[trigger] draws[j])
}

/// The device to create: with a queue of the first family that can draw, if its
/// Vulkan version is no older than the runtime's lowest one.
pub open spec fn device_plan_for(
    version: Version,
    min_major: u32,
    min_minor: u32,
    draws: Seq<bool>,
) -> Result<DevicePlan, SetupError> {
    if version.older(Version { major: min_major, minor: min_minor, patch: 0 }) {
        Err(SetupError::VersionUnsupported(version))
    } else if exists|i: int| #[trigger] is_first_drawing(draws, i) {
        let family = choose|i: int| #[trigger] is_first_drawing(draws, i);
        Ok(
            DevicePlan {
                queue_family_index: family as u32,
                queue_index: 0,
                khr_swapchain: true,
                khr_multiview: true,
                multiview: true,
            },
        )
    } else {
        Err(SetupError::NoGraphicsQueue)
    }
}

/// The depth formats that a swapchain is created with, the best one first.
pub open spec fn preferred_depth_formats() -> Seq<Format> {
    seq![
        Format::D32Sfloat,
        Format::D16Unorm,
        Format::D32SfloatS8Uint,
        Format::D24UnormS8Uint,
        Format::D16UnormS8Uint,
    ]
}

/// What the views ask for.
#[derive(Debug, Eq, PartialEq, Clone, Copy, Structural)]
pub struct EyeViews {
    /// Size of the image for one eye.
    pub size: UVec2,
    pub sample_count: u32,
}

/// The formats to create swapchains with.
#[derive(Debug, Eq, PartialEq, Clone, Copy, Structural)]
pub struct FormatChoice {
    pub color: Format,
    pub depth: Option<Format>,
}

/// A swapchain with an image of its own for each eye.
pub open spec fn eye_swapchain(views: EyeViews, format: Format, usage: ImageUsage) -> SwapchainPlan {
    SwapchainPlan {
        array_size: 2,
        face_count: 1,
        mip_count: 1,
        format,
        sample_count: views.sample_count,
        width: views.size.x,
        height: views.size.y,
        usage,
    }
}

/// The usage of a depth image.
pub open spec fn depth_usage() -> ImageUsage {
    ImageUsage { depth_stencil_attachment: true, ..ImageUsage::spec_none() }
}

/// An image of a swapchain.
pub open spec fn swapchain_image(swapchain: SwapchainPlan) -> ImagePlan {
    ImagePlan {
        format: swapchain.format,
        width: swapchain.width,
        height: swapchain.height,
        array_layers: swapchain.array_size,
        usage: swapchain.usage,
    }
}

/// An application that is set up.
#[derive(Debug)]
pub struct OpenXr {
    /// The extensions of the OpenXR instance.
    pub extensions: XrExtensions,
    pub instance: InstancePlan,
    pub device: DevicePlan,
    pub swapchain: SwapchainPlan,
    pub depth_swapchain: Option<SwapchainPlan>,
    /// Render size of a single eye.
    pub render_size: UVec2,
}

/// What an [`OpenXr`] says.
pub struct OpenXrView {
    pub extensions: XrExtensions,
    pub instance: InstancePlanView,
    pub device: DevicePlan,
    pub swapchain: SwapchainPlan,
    pub depth_swapchain: Option<SwapchainPlan>,
    pub render_size: UVec2,
}

impl View for OpenXr {
    type V = OpenXrView;

    open spec fn view(&self) -> OpenXrView {
        OpenXrView {
            extensions: self.extensions,
            instance: self.instance@,
            device: self.device,
            swapchain: self.swapchain,
            depth_swapchain: self.depth_swapchain,
            render_size: self.render_size,
        }
    }
}

/// What an application asks for, and what drawing with Vulkan needs.
pub open spec fn required_extensions(asked: XrExtensions) -> XrExtensions {
    XrExtensions {
        khr_vulkan_enable: true,
        khr_vulkan_enable2: true,
        khr_convert_timespec_time: true,
        ..asked
    }
}

/// What two views ask for together.
pub open spec fn eye_views_of(views: Seq<ViewConfig>) -> EyeViews {
    EyeViews {
        size: UVec2 {
            x: larger(views[0].width, views[1].width),
            y: larger(views[0].height, views[1].height),
        },
        sample_count: larger(views[0].sample_count, views[1].sample_count),
    }
}

/// The formats to use, out of those that are supported.
pub open spec fn formats_result(formats: Seq<u32>, depth_layers: bool) -> Result<
    FormatChoice,
    SetupError,
> {
    if !formats_are_known(formats) {
        Err(SetupError::UnknownFormat)
    } else {
        match first_supported(preferred_color_formats(), formats) {
            None => Err(SetupError::NoSuitableFormat),
            Some(color) => Ok(
                FormatChoice {
                    color,
                    depth: if depth_layers {
                        first_supported(preferred_depth_formats(), formats)
                    } else {
                        None
                    },
                },
            ),
        }
    }
}

/// The swapchain for color.
pub open spec fn color_swapchain_for(eyes: EyeViews, formats: FormatChoice) -> SwapchainPlan {
    eye_swapchain(eyes, formats.color, target_usage())
}

/// The swapchain for depth, if there is one.
pub open spec fn depth_swapchain_for(eyes: EyeViews, formats: FormatChoice) -> Option<
    SwapchainPlan,
> {
    match formats.depth {
        Some(format) => Some(eye_swapchain(eyes, format, depth_usage())),
        None => None,
    }
}

/// Whether the surroundings can be hidden.
pub open spec fn blend_result(modes: Seq<i32>) -> Result<(), SetupError> {
    if modes.contains(OPAQUE) {
        Ok(())
    } else {
        Err(SetupError::NoOpaqueBlendMode)
    }
}

/// Whether the runtime created the session. Only negative numbers stand for
/// failures.
pub open spec fn session_result(answer: XrErr) -> Result<(), SetupError> {
    if answer.code < 0 {
        Err(SetupError::Session(answer))
    } else {
        Ok(())
    }
}

/// What the views ask for, of which there have to be two.
pub open spec fn eyes_result(views: Seq<ViewConfig>) -> Result<EyeViews, SetupError> {
    if views.len() == 2 {
        Ok(eye_views_of(views))
    } else {
        Err(SetupError::UnexpectedViews)
    }
}

impl SwapchainPlan {
    /// An image of the swapchain.
    pub fn image(&self) -> (image: ImagePlan)
        ensures
            image == swapchain_image(*self),
    {
        ImagePlan {
            format: self.format,
            width: self.width,
            height: self.height,
            array_layers: self.array_size,
            usage: self.usage,
        }
    }
}

impl XrExtensions {
    /// What an application asks for, and what drawing with Vulkan needs.
    pub fn with_required(self) -> (extensions: Self)
        ensures
            extensions == required_extensions(self),
    {
        let mut extensions = self;
        extensions.khr_vulkan_enable = true;
        extensions.khr_vulkan_enable2 = true;
        extensions.khr_convert_timespec_time = true;
        extensions
    }
}

impl OpenXr {
    /// The device to create: with a queue of the first family that can draw. The
    /// device's Vulkan version must be no older than the runtime's lowest one.
    pub fn create_vk_device(
        device_version: Version,
        min_major: u32,
        min_minor: u32,
        draws: &[bool],
    ) -> (plan: Result<DevicePlan, SetupError>)
        ensures
            plan == device_plan_for(device_version, min_major, min_minor, draws@),
    {
        if device_version.is_older_than(Version::major_minor(min_major, min_minor)) {
            return Err(SetupError::VersionUnsupported(device_version));
        }
        let mut i: usize = 0;
        while i < draws.len()
            invariant
                i <= draws@.len(),
                !device_version.older(Version { major: min_major, minor: min_minor, patch: 0 }),
                forall|j: int| 0 <= j < i ==> !(#[trigger] draws@[j]),
            decreases draws.len() - i,
        {
            if draws[i] {
                assert(is_first_drawing(draws@, i as int));
                return Ok(
                    DevicePlan {
                        queue_family_index: #[verifier::truncate] (i as u32),
                        queue_index: 0,
                        khr_swapchain: true,
                        khr_multiview: true,
                        multiview: true,
                    },
                );
            }
            i += 1;
        }
        Err(SetupError::NoGraphicsQueue)
    }

    /// Place of the first extension that is wanted and not supported, if there is
    /// one.
    pub fn first_unsupported(extensions: &[InstanceExtension]) -> (place: Option<usize>)
        ensures
            match place {
                Some(i) => is_first_unsupported(extensions@, i as int),
                None => all_supported(extensions@),
            },
    {
        let surface: String = SURFACE_EXTENSION.to_owned();
        let mut i: usize = 0;
        while i < extensions.len()
            invariant
                i <= extensions@.len(),
                surface@ == SURFACE_EXTENSION@,
                forall|j: int|
                    0 <= j < i && is_wanted(#[trigger] extensions@[j])
                        ==> extensions@[j].supported,
            decreases extensions.len() - i,
        {
            let wanted = extensions[i].requested || extensions[i].name == surface;
            if wanted && !extensions[i].supported {
                return Some(i);
            }
            i += 1;
        }
        None
    }

    /// The Vulkan instance to create: with every wanted extension, all of which
    /// have to be supported.
    pub fn create_vk_instance(
        extensions: &[InstanceExtension],
        max_major: u32,
        max_minor: u32,
        library: Version,
    ) -> (plan: Result<InstancePlan, SetupError>)
        requires
            lists_surface(extensions@),
            all_supported(extensions@) ==> instance_version(
                max_major,
                max_minor,
                library,
            ).packable(),
        ensures
            match instance_plan_for(extensions@, max_major, max_minor, library) {
                Ok(p) => plan is Ok && plan->Ok_0@ == p,
                Err(e) => plan == Err::<InstancePlan, SetupError>(e),
            },
    {
        if let Some(i) = OpenXr::first_unsupported(extensions) {
            return Err(SetupError::ExtensionUnsupported(i));
        }
        let surface: String = SURFACE_EXTENSION.to_owned();
        let mut enabled: Vec<usize> = Vec::new();
        let mut i: usize = 0;
        while i < extensions.len()
            invariant
                i <= extensions@.len(),
                surface@ == SURFACE_EXTENSION@,
                enabled@ == wanted_places(extensions@, i as nat),
            decreases extensions.len() - i,
        {
            if extensions[i].requested || extensions[i].name == surface {
                enabled.push(i);
            }
            i += 1;
        }
        let api_version = Version::major_minor(max_major, max_minor).min(library);
        let packed_version: u32 = api_version.to_packed().unwrap();
        Ok(InstancePlan { enabled, api_version, packed_version })
    }

    /// Checks that the runtime can hide the surroundings.
    pub fn check_blend_modes(modes: &[i32]) -> (result: Result<(), SetupError>)
        ensures
            result == blend_result(modes@),
    {
        let mut i: usize = 0;
        while i < modes.len()
            invariant
                i <= modes@.len(),
                forall|j: int| 0 <= j < i ==> modes@[j] != OPAQUE,
            decreases modes.len() - i,
        {
            if modes[i] == OPAQUE {
                assert(modes@[i as int] == OPAQUE);
                return Ok(());
            }
            i += 1;
        }
        Err(SetupError::NoOpaqueBlendMode)
    }

    /// Checks that the runtime created the session. Only negative numbers stand
    /// for failures.
    pub fn check_session(answer: XrErr) -> (result: Result<(), SetupError>)
        ensures
            result == session_result(answer),
    {
        if answer.code < 0 {
            Err(SetupError::Session(answer))
        } else {
            Ok(())
        }
    }

    /// What the two views ask for together: the larger one of what either asks
    /// for.
    pub fn eye_views(views: &[ViewConfig]) -> (result: Result<EyeViews, SetupError>)
        ensures
            result == eyes_result(views@),
    {
        if views.len() != 2 {
            return Err(SetupError::UnexpectedViews);
        }
        let size = UVec2::new(
            max_u32(views[0].width, views[1].width),
            max_u32(views[0].height, views[1].height),
        );
        let sample_count: u32 = max_u32(views[0].sample_count, views[1].sample_count);
        Ok(EyeViews { size, sample_count })
    }

    /// The formats to use, out of those that are supported. There is a depth
    /// format only if depth can be submitted and one of the known ones is
    /// supported.
    pub fn choose_formats(formats: &[u32], depth_layers: bool) -> (choice: Result<
        FormatChoice,
        SetupError,
    >)
        ensures
            choice == formats_result(formats@, depth_layers),
    {
        if !all_formats_known(formats) {
            return Err(SetupError::UnknownFormat);
        }
        let color = match choose_color_format(formats) {
            Some(color) => color,
            None => return Err(SetupError::NoSuitableFormat),
        };
        let preferred: [Format; 5] = [
            Format::D32Sfloat,
            Format::D16Unorm,
            Format::D32SfloatS8Uint,
            Format::D24UnormS8Uint,
            Format::D16UnormS8Uint,
        ];
        assert(preferred@ =~= preferred_depth_formats());
        let depth = if depth_layers {
            select_format(preferred.as_slice(), formats)
        } else {
            None
        };
        Ok(FormatChoice { color, depth })
    }

    /// A swapchain with an image of its own for each eye.
    fn swapchain_with(eyes: EyeViews, format: Format, usage: ImageUsage) -> (plan: SwapchainPlan)
        ensures
            plan == eye_swapchain(eyes, format, usage),
    {
        SwapchainPlan {
            array_size: 2,
            face_count: 1,
            mip_count: 1,
            format,
            sample_count: eyes.sample_count,
            width: eyes.size.x,
            height: eyes.size.y,
            usage,
        }
    }

    /// The swapchain for color.
    pub fn color_swapchain(eyes: EyeViews, formats: FormatChoice) -> (plan: SwapchainPlan)
        ensures
            plan == color_swapchain_for(eyes, formats),
    {
        let mut usage = ImageUsage::none();
        usage.color_attachment = true;
        usage.transfer_dst = true;
        Self::swapchain_with(eyes, formats.color, usage)
    }

    /// The swapchain for depth, if there is one.
    pub fn depth_swapchain(eyes: EyeViews, formats: FormatChoice) -> (plan: Option<SwapchainPlan>)
        ensures
            plan == depth_swapchain_for(eyes, formats),
    {
        match formats.depth {
            Some(format) => {
                let mut usage = ImageUsage::none();
                usage.depth_stencil_attachment = true;
                Some(Self::swapchain_with(eyes, format, usage))
            },
            None => None,
        }
    }

    /// Render size of a single eye.
    pub fn render_size(&self) -> (size: UVec2)
        ensures
            size == self.render_size,
    {
        self.render_size
    }
}

/// Every wanted extension is enabled, and no other one.
pub proof fn enabled_extensions_are_the_wanted_ones(
    extensions: Seq<InstanceExtension>,
    n: nat,
    i: usize,
)
    requires
        n <= extensions.len() <= usize::MAX,
    ensures
        wanted_places(extensions, n).contains(i) <==> i < n && is_wanted(extensions[i as int]),
    decreases n,
{
    if n > 0 {
        let before = wanted_places(extensions, (n - 1) as nat);
        enabled_extensions_are_the_wanted_ones(extensions, (n - 1) as nat, i);
        if is_wanted(extensions[n - 1]) {
            let all = before.push((n - 1) as usize);
            if before.contains(i) {
                let k = choose|k: int| 0 <= k < before.len() && before[k] == i;
                assert(all[k] == i);
            }
            if i == n - 1 {
                assert(all[before.len() as int] == i);
            }
            if all.contains(i) && i != n - 1 {
                let k = choose|k: int| 0 <= k < all.len() && all[k] == i;
                assert(before[k] == i);
            }
        }
    }
}

/// The swapchain formats go by the numbers that the runtime supports. Color has the
/// first one of 37, 44, 43 and 50, and there has to be one. Where depth can be
/// submitted, it has the first one of 126, 124, 130, 129 and 128, or none.
pub proof fn swapchain_formats_go_by_number(supported: Seq<u32>, depth_layers: bool)
    ensures
        ({
            let result = formats_result(supported, depth_layers);
            let offers = |code: u32| supported.contains(code);
            &&& !formats_are_known(supported) ==> result == Err::<FormatChoice, SetupError>(
                SetupError::UnknownFormat,
            )
            &&& formats_are_known(supported) && !offers(37) && !offers(44) && !offers(43) && !offers(50)
                ==> result == Err::<FormatChoice, SetupError>(SetupError::NoSuitableFormat)
            &&& formats_are_known(supported) && (offers(37) || offers(44) || offers(43) || offers(50))
                ==> result is Ok
            &&& result matches Ok(choice) ==> {
                &&& choice.color == (if offers(37) {
                    Format::R8G8B8A8Unorm
                } else if offers(44) {
                    Format::B8G8R8A8Unorm
                } else if offers(43) {
                    Format::R8G8B8A8Srgb
                } else {
                    Format::B8G8R8A8Srgb
                })
                &&& choice.depth is Some <==> depth_layers && (offers(126) || offers(124) || offers(130)
                    || offers(129) || offers(128))
                &&& choice.depth == Some(Format::D32Sfloat) <==> depth_layers && offers(126)
                &&& choice.depth == Some(Format::D16Unorm) <==> depth_layers && !offers(126) && offers(
                    124,
                )
                &&& choice.depth == Some(Format::D32SfloatS8Uint) <==> depth_layers && !offers(126)
                    && !offers(124) && offers(130)
                &&& choice.depth == Some(Format::D24UnormS8Uint) <==> depth_layers && !offers(126)
                    && !offers(124) && !offers(130) && offers(129)
                &&& choice.depth == Some(Format::D16UnormS8Uint) <==> depth_layers && !offers(126)
                    && !offers(124) && !offers(130) && !offers(129) && offers(128)
            }
        }),
{
    color_format_goes_by_number(supported);
    reveal_with_fuel(first_supported, 7);
}

/// The swapchains have two images in one, one for each eye, as large and with as
/// many samples as the eyes need. The one for color can be drawn to and copied to,
/// the one for depth can be used for depth, and for nothing else. There is one for
/// depth exactly where there is a format for it.
pub proof fn swapchains_have_an_image_for_each_eye(eyes: EyeViews, formats: FormatChoice)
    ensures
        ({
            let color = color_swapchain_for(eyes, formats);
            &&& color.array_size == 2 && color.face_count == 1 && color.mip_count == 1
            &&& color.width == eyes.size.x && color.height == eyes.size.y
            &&& color.sample_count == eyes.sample_count
            &&& color.format == formats.color
            &&& color.usage.color_attachment && color.usage.transfer_dst
            &&& !color.usage.transfer_src && !color.usage.sampled
                && !color.usage.depth_stencil_attachment
        }),
        depth_swapchain_for(eyes, formats) is Some <==> formats.depth is Some,
        depth_swapchain_for(eyes, formats) matches Some(depth) ==> {
            &&& depth.array_size == 2 && depth.face_count == 1 && depth.mip_count == 1
            &&& depth.width == eyes.size.x && depth.height == eyes.size.y
            &&& depth.sample_count == eyes.sample_count
            &&& formats.depth == Some(depth.format)
            &&& depth.usage.depth_stencil_attachment
            &&& !depth.usage.color_attachment && !depth.usage.transfer_dst
                && !depth.usage.transfer_src && !depth.usage.sampled
        },
{
}

/// Images of a swapchain are wrapped as what the swapchain was created with.
pub proof fn swapchain_images_are_the_swapchains(swapchain: SwapchainPlan)
    ensures
        ({
            let image = swapchain_image(swapchain);
            &&& image.width == swapchain.width && image.height == swapchain.height
            &&& image.array_layers == swapchain.array_size
            &&& image.format == swapchain.format && image.usage == swapchain.usage
        }),
{
}

/// There have to be two views. An eye has room, and samples, for what either of them
/// asks for, and no more.
pub proof fn eyes_have_room_for_either_view(views: Seq<ViewConfig>)
    ensures
        views.len() != 2 ==> eyes_result(views) == Err::<EyeViews, SetupError>(
            SetupError::UnexpectedViews,
        ),
        views.len() == 2 ==> (eyes_result(views) matches Ok(eyes) && {
            &&& eyes.size.x >= views[0].width && eyes.size.x >= views[1].width
            &&& eyes.size.x == views[0].width || eyes.size.x == views[1].width
            &&& eyes.size.y >= views[0].height && eyes.size.y >= views[1].height
            &&& eyes.size.y == views[0].height || eyes.size.y == views[1].height
            &&& eyes.sample_count >= views[0].sample_count && eyes.sample_count
                >= views[1].sample_count
            &&& eyes.sample_count == views[0].sample_count || eyes.sample_count
                == views[1].sample_count
        }),
{
}

/// The runtime has to be able to hide the surroundings, which is blend mode 1.
pub proof fn opaque_blending_is_needed(modes: Seq<i32>)
    ensures
        modes.contains(1) ==> blend_result(modes) is Ok,
        !modes.contains(1) ==> blend_result(modes) == Err::<(), SetupError>(
            SetupError::NoOpaqueBlendMode,
        ),
{
}

/// Only a negative answer means that there is no session.
pub proof fn sessions_fail_by_negative_numbers(answer: XrErr)
    ensures
        answer.code < 0 ==> session_result(answer) == Err::<(), SetupError>(
            SetupError::Session(answer),
        ),
        answer.code >= 0 ==> session_result(answer) is Ok,
{
}

/// The extensions that Vulkan needs are always there; the others are there exactly
/// where they are asked for.
pub proof fn vulkan_extensions_are_always_there(asked: XrExtensions)
    ensures
        ({
            let extensions = required_extensions(asked);
            &&& extensions.khr_vulkan_enable && extensions.khr_vulkan_enable2
            &&& extensions.khr_convert_timespec_time
            &&& extensions.htc_passthrough == asked.htc_passthrough
            &&& extensions.khr_composition_layer_depth == asked.khr_composition_layer_depth
        }),
{
}

/// An instance has the newest version that neither the runtime nor the library is
/// too old for. Its packed form holds the three numbers.
pub proof fn instance_version_suits_both(
    extensions: Seq<InstanceExtension>,
    max_major: u32,
    max_minor: u32,
    library: Version,
)
    ensures
        instance_plan_for(extensions, max_major, max_minor, library) matches Ok(plan) ==> {
            let highest = Version { major: max_major, minor: max_minor, patch: 0 };
            let version = plan.api_version;
            &&& version == highest || version == library
            &&& !highest.older(version) && !library.older(version)
            &&& version.packable() ==> {
                &&& plan.packed_version / 0x40_0000 == version.major
                &&& plan.packed_version / 0x1000 % 0x400 == version.minor
                &&& plan.packed_version % 0x1000 == version.patch
            }
        },
{
}

/// An instance has the extension for surfaces and those that are asked for. Where
/// one of them is not supported there is no instance, and the first one is named.
pub proof fn unsupported_extensions_prevent_the_instance(
    extensions: Seq<InstanceExtension>,
    max_major: u32,
    max_minor: u32,
    library: Version,
    i: int,
)
    requires
        extensions.len() <= usize::MAX,
        0 <= i < extensions.len(),
        extensions[i].requested || extensions[i].name@ == "VK_KHR_surface"@,
    ensures
        ({
            let plan = instance_plan_for(extensions, max_major, max_minor, library);
            &&& plan matches Ok(plan) ==> extensions[i].supported && plan.enabled.contains(
                i as usize,
            )
            &&& !extensions[i].supported && (forall|j: int|
                0 <= j < i ==> (#[trigger] extensions[j]).supported) ==> plan == Err::<
                InstancePlanView,
                SetupError,
            >(SetupError::ExtensionUnsupported(i as usize))
        }),
{
    enabled_extensions_are_the_wanted_ones(extensions, extensions.len(), i as usize);
    if !extensions[i].supported && (forall|j: int|
        0 <= j < i ==> (#[trigger] extensions[j]).supported) {
        assert(is_first_unsupported(extensions, i));
        let place = choose|k: int| #[trigger] is_first_unsupported(extensions, k);
        assert(is_first_unsupported(extensions, place));
        assert(extensions[place].supported || place >= i);
        assert(place == i);
    }
}

/// A device has a queue of the first family that can draw. There is none where the
/// device is too old for the runtime, or no family can draw.
pub proof fn device_draws_with_the_first_family(
    version: Version,
    min_major: u32,
    min_minor: u32,
    draws: Seq<bool>,
    family: int,
)
    requires
        draws.len() <= u32::MAX,
    ensures
        ({
            let plan = device_plan_for(version, min_major, min_minor, draws);
            let old = version.major < min_major || version.major == min_major && version.minor
                < min_minor;
            &&& old ==> plan == Err::<DevicePlan, SetupError>(
                SetupError::VersionUnsupported(version),
            )
            &&& !old && !draws.contains(true) ==> plan == Err::<DevicePlan, SetupError>(
                SetupError::NoGraphicsQueue,
            )
            &&& !old && 0 <= family < draws.len() && draws[family] && !draws.take(
                family,
            ).contains(true) ==> (plan matches Ok(device) && device.queue_family_index == family
                && device.queue_index == 0 && device.khr_swapchain && device.khr_multiview
                && device.multiview)
        }),
{
    if 0 <= family < draws.len() && draws[family] && !draws.take(family).contains(true) {
        assert forall|j: int| 0 <= j < family implies !(#[trigger] draws[j]) by {
            if draws[j] {
                assert(draws.take(family)[j]);
            }
        }
        assert(is_first_drawing(draws, family));
        let first = choose|k: int| #[trigger] is_first_drawing(draws, k);
        assert(is_first_drawing(draws, first));
        assert(first == family);
    }
    if exists|k: int| #[trigger] is_first_drawing(draws, k) {
        let first = choose|k: int| #[trigger] is_first_drawing(draws, k);
        assert(draws[first]);
    }
}

} // verus!
