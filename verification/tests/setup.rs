use xr_passthrough::api_layer::session::ViewConfig;
use xr_passthrough::setup::{
    EyeViews, FormatChoice, InstanceExtension, OpenXr, SetupError, XrExtensions,
};
use xr_passthrough::setup_steps::{
    DeviceOffer, FormatOffer, InstanceOffer, Setup, SetupAction, SetupFailure, SetupReplies,
};
use xr_passthrough::vulkan::{Format, ImageUsage, Version};
use xr_passthrough::xr::XrErr;
use xr_passthrough::UVec2;

fn view(width: u32, height: u32, sample_count: u32) -> ViewConfig {
    ViewConfig { width, height, sample_count }
}

fn extension(name: &str, requested: bool, supported: bool) -> InstanceExtension {
    InstanceExtension { name: name.to_string(), requested, supported }
}

fn instance_offer(surface: bool) -> InstanceOffer {
    InstanceOffer {
        extensions: vec![
            extension("VK_EXT_debug_utils", false, true),
            extension("VK_KHR_surface", false, surface),
        ],
        max_major: 1,
        max_minor: 2,
        library: Version { major: 1, minor: 3, patch: 250 },
    }
}

fn device_offer(version: Version, draws: Vec<bool>) -> DeviceOffer {
    DeviceOffer { version, min_major: 1, min_minor: 1, draws }
}

fn formats(formats: Vec<u32>) -> Result<FormatOffer, &'static str> {
    Ok(FormatOffer { formats, depth_layers: true })
}

const DEVICE_VERSION: Version = Version { major: 1, minor: 2, patch: 9 };

fn replies() -> SetupReplies<&'static str> {
    SetupReplies {
        system: Ok(()),
        blend_modes: Ok(vec![3, 1]),
        instance_offer: Ok(instance_offer(true)),
        instance: Ok(()),
        device_offer: Ok(device_offer(DEVICE_VERSION, vec![false, true])),
        device: Ok(()),
        session: XrErr { code: 0 },
        views: Ok(vec![view(30, 20, 1), view(29, 25, 4)]),
        format_offer: formats(vec![44, 126, 37]),
        swapchain: Ok(3),
        depth_swapchain: Ok(3),
        space: Ok(()),
    }
}

fn asked() -> XrExtensions {
    XrExtensions {
        htc_passthrough: true,
        khr_composition_layer_depth: false,
        khr_vulkan_enable: false,
        khr_vulkan_enable2: false,
        khr_convert_timespec_time: false,
    }
}

fn set_up(replies: SetupReplies<&'static str>) -> Result<OpenXr, SetupFailure<&'static str>> {
    OpenXr::new(asked(), replies)
}

#[test]
fn setup_goes_step_by_step() {
    let (mut setup, action) = Setup::start(asked());
    let extensions = asked().with_required();
    assert_eq!(action, SetupAction::CreateXrInstance { extensions });
    assert_eq!(setup.system_found(Ok::<(), ()>(())), Ok(SetupAction::EnumerateBlendModes));
    assert_eq!(setup.blend_modes_known(Ok::<_, ()>(vec![1])), Ok(SetupAction::LookInstanceUp));
    let action = setup.instance_offered(Ok::<_, ()>(instance_offer(true)));
    assert_eq!(action, Ok(SetupAction::CreateVkInstance));
    assert_eq!(setup.instance.as_ref().unwrap().enabled, vec![1]);
    assert_eq!(setup.instance_created(Ok::<(), ()>(())), Ok(SetupAction::LookDeviceUp));
    let offer = device_offer(DEVICE_VERSION, vec![false, true]);
    let device = match setup.device_offered(Ok::<_, ()>(offer)) {
        Ok(SetupAction::CreateVkDevice { device }) => device,
        other => panic!("{other:?}"),
    };
    assert_eq!(device.queue_family_index, 1);
    assert_eq!(setup.device_created(Ok::<(), ()>(())), Ok(SetupAction::CreateSession));
    let action = setup.session_created::<()>(XrErr { code: 0 });
    assert_eq!(action, Ok(SetupAction::EnumerateViews));
    let action = setup.views_known(Ok::<_, ()>(vec![view(30, 20, 1), view(29, 25, 4)]));
    assert_eq!(action, Ok(SetupAction::EnumerateFormats));
    let eyes = EyeViews { size: UVec2::new(30, 25), sample_count: 4 };
    let choice = FormatChoice { color: Format::R8G8B8A8Unorm, depth: Some(Format::D32Sfloat) };
    let swapchain = OpenXr::color_swapchain(eyes, choice);
    let action = setup.formats_known(formats(vec![126, 37]));
    assert_eq!(action, Ok(SetupAction::CreateSwapchain { swapchain }));
    let swapchain = OpenXr::depth_swapchain(eyes, choice).unwrap();
    let action = setup.swapchain_created(Ok::<_, ()>(3));
    assert_eq!(action, Ok(SetupAction::CreateDepthSwapchain { swapchain }));
    assert_eq!(setup.depth_swapchain_created(Ok::<_, ()>(3)), Ok(SetupAction::CreateSpace));
    assert_eq!(setup.space_created(Ok::<(), ()>(())), Ok(SetupAction::Finish));
    assert_eq!(setup.finish().device, device);
}

#[test]
fn device_draws_with_the_first_family_that_can() {
    let version = Version { major: 1, minor: 2, patch: 9 };
    let plan = OpenXr::create_vk_device(version, 1, 2, &[false, true, true]).unwrap();
    assert_eq!((plan.queue_family_index, plan.queue_index), (1, 0));
    assert!(plan.khr_swapchain && plan.khr_multiview && plan.multiview);
    assert_eq!(
        OpenXr::create_vk_device(version, 1, 2, &[false]),
        Err(SetupError::NoGraphicsQueue)
    );
    assert_eq!(
        OpenXr::create_vk_device(version, 1, 3, &[true]),
        Err(SetupError::VersionUnsupported(version))
    );
}

#[test]
fn instance_has_the_wanted_extensions() {
    let extensions = [
        extension("VK_EXT_debug_utils", false, true),
        extension("VK_KHR_surface", false, true),
        extension("VK_KHR_xcb_surface", false, false),
        extension("VK_KHR_xlib_surface", true, true),
    ];
    let library = Version { major: 1, minor: 3, patch: 250 };
    let plan = OpenXr::create_vk_instance(&extensions, 1, 2, library).unwrap();
    assert_eq!(plan.enabled, vec![1, 3]);
    assert_eq!(plan.api_version, Version { major: 1, minor: 2, patch: 0 });
    assert_eq!(plan.packed_version, (1 << 22) | (2 << 12));
    let plan = OpenXr::create_vk_instance(&extensions, 1, 4, library).unwrap();
    assert_eq!(plan.api_version, library);
    assert_eq!(plan.packed_version, (1 << 22) | (3 << 12) | 250);
}

#[test]
fn unsupported_extension_is_an_error() {
    let extensions =
        [extension("VK_KHR_surface", false, false), extension("VK_KHR_xlib_surface", true, false)];
    let library = Version { major: 1, minor: 3, patch: 0 };
    let result = OpenXr::create_vk_instance(&extensions, 1, 2, library);
    assert_eq!(result.unwrap_err(), SetupError::ExtensionUnsupported(0));
    let only_xlib =
        [extension("VK_KHR_surface", false, true), extension("VK_KHR_xlib_surface", true, false)];
    let result = OpenXr::create_vk_instance(&only_xlib, 1, 2, library);
    assert_eq!(result.unwrap_err(), SetupError::ExtensionUnsupported(1));
    assert_eq!(OpenXr::first_unsupported(&extensions[1..]), Some(0));
    assert_eq!(OpenXr::first_unsupported(&[extension("VK_KHR_surface", false, true)]), None);
    let unpackable = Version { major: 5000, minor: 0, patch: 0 };
    let result = OpenXr::create_vk_instance(&extensions, 6000, 0, unpackable);
    assert_eq!(result.unwrap_err(), SetupError::ExtensionUnsupported(0));
}

#[test]
fn vulkan_needs_its_own_extensions() {
    let extensions = asked().with_required();
    assert!(extensions.htc_passthrough);
    assert!(!extensions.khr_composition_layer_depth);
    assert!(extensions.khr_vulkan_enable && extensions.khr_vulkan_enable2);
    assert!(extensions.khr_convert_timespec_time);
}

#[test]
fn application_is_set_up_with_color_and_depth() {
    let xr = set_up(replies()).unwrap();
    assert_eq!(xr.extensions, asked().with_required());
    assert_eq!(xr.instance.enabled, vec![1]);
    assert_eq!(xr.instance.api_version, Version { major: 1, minor: 2, patch: 0 });
    assert_eq!((xr.device.queue_family_index, xr.device.queue_index), (1, 0));
    assert_eq!(xr.render_size(), UVec2::new(30, 25));
    assert_eq!((xr.swapchain.width, xr.swapchain.height), (30, 25));
    assert_eq!(xr.swapchain.format, Format::R8G8B8A8Unorm);
    assert_eq!(xr.swapchain.sample_count, 4);
    assert_eq!(xr.swapchain.array_size, 2);
    let color = ImageUsage { color_attachment: true, transfer_dst: true, ..ImageUsage::none() };
    assert_eq!(xr.swapchain.usage, color);
    let depth = xr.depth_swapchain.unwrap();
    assert_eq!(depth.format, Format::D32Sfloat);
    assert_eq!((depth.width, depth.height, depth.sample_count, depth.array_size), (30, 25, 4, 2));
    let usage = ImageUsage { depth_stencil_attachment: true, ..ImageUsage::none() };
    assert_eq!(depth.usage, usage);
    let image = xr.swapchain.image();
    assert_eq!((image.width, image.height, image.array_layers), (30, 25, 2));
    assert_eq!(image.format, Format::R8G8B8A8Unorm);
    assert_eq!(image.usage, color);
}

#[test]
fn depth_is_used_only_where_it_can_be() {
    let without = FormatOffer { formats: vec![44, 126, 37], depth_layers: false };
    let without = SetupReplies { format_offer: Ok(without), ..replies() };
    assert!(set_up(without).unwrap().depth_swapchain.is_none());
    let unsupported = SetupReplies {
        format_offer: formats(vec![37]),
        depth_swapchain: Err("not asked for"),
        ..replies()
    };
    assert!(set_up(unsupported).unwrap().depth_swapchain.is_none());
    let many = SetupReplies { format_offer: formats(vec![128, 129, 130, 124, 37]), ..replies() };
    assert_eq!(set_up(many).unwrap().depth_swapchain.unwrap().format, Format::D16Unorm);
}

#[test]
fn setup_fails_at_the_first_obstacle() {
    let fails = |replies: SetupReplies<&'static str>| match set_up(replies).unwrap_err() {
        SetupFailure::Refused(e) => e,
        SetupFailure::Outside(e) => panic!("{e}"),
    };
    let mut failing = replies();
    failing.format_offer = formats(vec![126]);
    assert_eq!(fails(failing), SetupError::NoSuitableFormat);
    let mut failing = replies();
    failing.format_offer = formats(vec![37, 185]);
    assert_eq!(fails(failing), SetupError::UnknownFormat);
    let three = SetupReplies { views: Ok(vec![view(1, 1, 1); 3]), ..replies() };
    assert_eq!(fails(three), SetupError::UnexpectedViews);
    let error = XrErr { code: -2 };
    let one = || SetupReplies {
        views: Ok(vec![view(30, 20, 1)]),
        format_offer: formats(vec![126]),
        ..replies()
    };
    assert_eq!(fails(one()), SetupError::UnexpectedViews);
    let refused = || SetupReplies { session: error, ..one() };
    assert_eq!(fails(refused()), SetupError::Session(error));
    let idle = || SetupReplies {
        device_offer: Ok(device_offer(DEVICE_VERSION, vec![false])),
        ..refused()
    };
    assert_eq!(fails(idle()), SetupError::NoGraphicsQueue);
    let old = Version { major: 1, minor: 0, patch: 3 };
    let outdated =
        SetupReplies { device_offer: Ok(device_offer(old, vec![false])), ..refused() };
    assert_eq!(fails(outdated), SetupError::VersionUnsupported(old));
    let bare = || SetupReplies { instance_offer: Ok(instance_offer(false)), ..idle() };
    assert_eq!(fails(bare()), SetupError::ExtensionUnsupported(1));
    let blended = SetupReplies { blend_modes: Ok(vec![3]), ..bare() };
    assert_eq!(fails(blended), SetupError::NoOpaqueBlendMode);
}

#[test]
fn setup_hands_outside_errors_back() {
    let fails = |replies| match set_up(replies).unwrap_err() {
        SetupFailure::Outside(e) => e,
        SetupFailure::Refused(e) => panic!("{e:?}"),
    };
    let e = "lost";
    assert_eq!(fails(SetupReplies { space: Err(e), ..replies() }), e);
    assert_eq!(fails(SetupReplies { depth_swapchain: Err(e), ..replies() }), e);
    assert_eq!(fails(SetupReplies { swapchain: Err(e), ..replies() }), e);
    assert_eq!(fails(SetupReplies { format_offer: Err(e), ..replies() }), e);
    assert_eq!(fails(SetupReplies { views: Err(e), ..replies() }), e);
    assert_eq!(fails(SetupReplies { device: Err(e), ..replies() }), e);
    assert_eq!(fails(SetupReplies { device_offer: Err(e), ..replies() }), e);
    assert_eq!(fails(SetupReplies { instance: Err(e), ..replies() }), e);
    assert_eq!(fails(SetupReplies { instance_offer: Err(e), ..replies() }), e);
    assert_eq!(fails(SetupReplies { blend_modes: Err(e), ..replies() }), e);
    let both = SetupReplies { blend_modes: Err("later"), system: Err(e), ..replies() };
    assert_eq!(fails(both), e);
}

#[test]
fn session_with_something_to_add_is_fine() {
    assert!(OpenXr::check_session(XrErr { code: 3 }).is_ok());
    assert!(OpenXr::check_session(XrErr { code: -1 }).is_err());
    assert!(OpenXr::check_blend_modes(&[]).is_err());
    assert!(OpenXr::check_blend_modes(&[1]).is_ok());
}

#[test]
fn parts_of_the_setup_fit_together() {
    let views = OpenXr::eye_views(&[view(30, 20, 1), view(29, 25, 4)]).unwrap();
    assert_eq!(views, EyeViews { size: UVec2::new(30, 25), sample_count: 4 });
    let formats = OpenXr::choose_formats(&[50, 130], true).unwrap();
    let expected =
        FormatChoice { color: Format::B8G8R8A8Srgb, depth: Some(Format::D32SfloatS8Uint) };
    assert_eq!(formats, expected);
    assert_eq!(OpenXr::color_swapchain(views, formats).format, Format::B8G8R8A8Srgb);
    let depth = OpenXr::depth_swapchain(views, formats).unwrap();
    assert_eq!((depth.format, depth.width), (Format::D32SfloatS8Uint, 30));
    let flat = FormatChoice { depth: None, ..formats };
    assert!(OpenXr::depth_swapchain(views, flat).is_none());
}
