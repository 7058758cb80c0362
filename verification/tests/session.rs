use xr_passthrough::api_layer::camera::{
    camera_request, create_camera_resources, CameraAction, CameraReplies, CameraSetup, CameraStage,
};
use xr_passthrough::api_layer::create::{
    api_version, device_wrap, instance_wrap, Create, CreateAction, CreatePlan, CreateReplies,
    CreateRequest, CreateStage, GraphicsBinding,
};
use xr_passthrough::api_layer::entry::{to_answer, BeginFrameReplies, FrameCall, SessionCall};
use xr_passthrough::api_layer::session::{
    choose_color_format, max_u32, Begin, BeginAction, BeginReplies, SessionData, SessionDataInner,
    SessionState, ViewConfig,
};
use xr_passthrough::device::{DeviceInfo, Property};
use xr_passthrough::pipeline::SamplerSupport;
use xr_passthrough::vulkan::{Format, ImageUsage, Version};
use xr_passthrough::xr::{
    XrErr, ERROR_RUNTIME_FAILURE, ERROR_SESSION_NOT_RUNNING, ERROR_SESSION_RUNNING,
    ERROR_VALIDATION_FAILURE, SUCCESS,
};
use xr_passthrough::UVec2;

const STEREO: i32 = 2;

fn failure(code: i32) -> XrErr {
    XrErr { code }
}

fn idle(passthrough: Option<u64>) -> SessionDataInner {
    SessionDataInner { state: SessionState::Idle { passthrough }, system_id: 77 }
}

fn running(passthrough: Option<u64>, image_index: Option<u32>) -> SessionDataInner {
    SessionDataInner {
        state: SessionState::Running {
            view_type: STEREO,
            passthrough,
            size: UVec2::new(30, 20),
            image_index,
        },
        system_id: 77,
    }
}

fn wrapped(inner: SessionDataInner) -> SessionData {
    SessionData { inner: Some(inner) }
}

/// Running or not, view type, passthrough object, size and image index.
fn describe(data: &SessionDataInner) -> (bool, i32, Option<u64>, (u32, u32), Option<u32>) {
    match data.state {
        SessionState::Idle { passthrough } => (false, 0, passthrough, (0, 0), None),
        SessionState::Running { view_type, passthrough, size, image_index } => {
            (true, view_type, passthrough, (size.x, size.y), image_index)
        }
    }
}

fn view(width: u32, height: u32, sample_count: u32) -> ViewConfig {
    ViewConfig { width, height, sample_count }
}

fn good_replies() -> BeginReplies {
    BeginReplies {
        views: Ok(vec![view(30, 20, 1), view(29, 25, 4)]),
        camera: Ok(()),
        formats: Ok(vec![43, 37]),
        swapchain: Ok(()),
        images: Ok(()),
    }
}

#[test]
fn larger_number_wins() {
    assert_eq!(max_u32(3, 5), 5);
    assert_eq!(max_u32(5, 3), 5);
    assert_eq!(max_u32(4, 4), 4);
}

#[test]
fn linear_color_formats_are_preferred() {
    assert_eq!(choose_color_format(&[43, 50, 37]), Some(Format::R8G8B8A8Unorm));
    assert_eq!(choose_color_format(&[43, 44]), Some(Format::B8G8R8A8Unorm));
    assert_eq!(choose_color_format(&[50, 43]), Some(Format::R8G8B8A8Srgb));
    assert_eq!(choose_color_format(&[50]), Some(Format::B8G8R8A8Srgb));
    assert_eq!(choose_color_format(&[126]), None);
}

#[test]
fn session_begins_with_the_larger_eye_size() {
    let mut data = idle(None);
    assert!(data.begin(STEREO, good_replies()).is_ok());
    assert!(data.is_running());
    assert_eq!(describe(&data), (true, STEREO, None, (30, 25), None));
    assert_eq!(data.system_id, 77);
}

#[test]
fn attached_object_survives_begin_and_end() {
    let mut data = idle(Some(5));
    assert!(data.begin(STEREO, good_replies()).is_ok());
    assert_eq!(describe(&data).2, Some(5));
    data.end();
    assert_eq!(describe(&data), (false, 0, Some(5), (0, 0), None));
}

#[test]
fn running_session_cannot_begin() {
    let mut data = running(None, Some(3));
    assert_eq!(data.begin(STEREO, good_replies()), Err(failure(ERROR_SESSION_RUNNING)));
    let unasked = BeginReplies { views: Ok(Vec::new()), ..good_replies() };
    assert_eq!(data.begin(STEREO, unasked), Err(failure(ERROR_SESSION_RUNNING)));
    assert_eq!(describe(&data).4, Some(3));
}

#[test]
fn first_failure_stops_the_begin() {
    let fails = |replies: BeginReplies, passthrough| {
        let mut data = idle(passthrough);
        let result = data.begin(STEREO, replies);
        assert!(!data.is_running());
        result.unwrap_err().code
    };
    assert_eq!(fails(BeginReplies { views: Err(failure(-9)), ..good_replies() }, None), -9);
    assert_eq!(fails(BeginReplies { camera: Err(failure(-8)), ..good_replies() }, Some(1)), -8);
    assert_eq!(fails(BeginReplies { formats: Err(failure(-7)), ..good_replies() }, None), -7);
    assert_eq!(
        fails(BeginReplies { formats: Ok(vec![126]), ..good_replies() }, None),
        ERROR_RUNTIME_FAILURE
    );
    assert_eq!(
        fails(BeginReplies { formats: Ok(vec![37, 185]), ..good_replies() }, None),
        ERROR_RUNTIME_FAILURE
    );
    assert_eq!(fails(BeginReplies { swapchain: Err(failure(-6)), ..good_replies() }, None), -6);
    assert_eq!(fails(BeginReplies { images: Err(failure(-5)), ..good_replies() }, None), -5);
}

#[test]
fn camera_is_asked_for_only_with_an_object() {
    let mut data = idle(None);
    let replies = BeginReplies { camera: Err(failure(-8)), ..good_replies() };
    assert!(data.begin(STEREO, replies).is_ok());
}

#[test]
fn begin_says_what_to_do_step_by_step() {
    let mut data = idle(Some(5));
    let (mut begin, action) = Begin::start(&data, STEREO);
    assert!(matches!(action, BeginAction::EnumerateViews));
    let action = begin.views_known(&data, Ok(vec![view(30, 20, 1), view(29, 25, 4)]));
    assert!(matches!(action, BeginAction::CreateCamera { size } if size == UVec2::new(30, 25)));
    let action = begin.camera_ready(Ok(()));
    assert!(matches!(action, BeginAction::EnumerateFormats));
    let action = begin.formats_known(Ok(vec![44]));
    let usage = ImageUsage { color_attachment: true, transfer_dst: true, ..ImageUsage::none() };
    match action {
        BeginAction::CreateSwapchain { plan } => {
            assert_eq!((plan.width, plan.height), (60, 25));
            assert_eq!((plan.array_size, plan.face_count, plan.mip_count), (1, 1, 1));
            assert_eq!(plan.sample_count, 1);
            assert_eq!(plan.format, Format::B8G8R8A8Unorm);
            assert_eq!(plan.usage, usage);
        }
        other => panic!("{:?}", other),
    }
    match begin.swapchain_created(Ok(())) {
        BeginAction::WrapImages { image } => {
            assert_eq!((image.width, image.height, image.array_layers), (60, 25, 1));
            assert_eq!(image.format, Format::B8G8R8A8Unorm);
            assert_eq!(image.usage, usage);
        }
        other => panic!("{:?}", other),
    }
    let action = begin.images_wrapped(&mut data, Ok(()));
    assert!(matches!(action, BeginAction::Return { result: Ok(()) }));
    assert_eq!(describe(&data), (true, STEREO, Some(5), (30, 25), None));
}

#[test]
fn object_is_attached_once() {
    let mut data = idle(None);
    assert_eq!(data.passthrough_needs_camera(), None);
    assert_eq!(data.get_or_add_passthrough(5, Err(failure(-1))), Ok(5));
    assert_eq!(data.get_or_add_passthrough(6, Ok(())), Ok(5));
    assert_eq!(describe(&data).2, Some(5));
}

#[test]
fn running_session_needs_a_camera_for_its_object() {
    let mut data = running(None, None);
    assert_eq!(data.passthrough_needs_camera(), Some(UVec2::new(30, 20)));
    assert_eq!(data.get_or_add_passthrough(5, Err(failure(-3))), Err(failure(-3)));
    assert_eq!(describe(&data).2, None);
    assert_eq!(data.get_or_add_passthrough(5, Ok(())), Ok(5));
    assert_eq!(data.passthrough_needs_camera(), None);
    assert_eq!(data.get_or_add_passthrough(6, Err(failure(-3))), Ok(5));
}

#[test]
fn unsupported_sessions_get_no_object() {
    let mut data = SessionData::default();
    assert_eq!(data.maybe_get_or_add_passthrough(5, Ok(())), Ok(None));
    let mut data = wrapped(idle(None));
    assert_eq!(data.maybe_get_or_add_passthrough(5, Ok(())), Ok(Some(5)));
    let mut data = wrapped(running(None, None));
    assert_eq!(data.maybe_get_or_add_passthrough(5, Err(failure(-3))), Err(failure(-3)));
}

#[test]
fn success_is_answered_with_zero() {
    assert_eq!(to_answer(Ok(())).code, SUCCESS);
    assert_eq!(to_answer(Err(failure(-4))).code, -4);
}

#[test]
fn begin_call_is_forwarded_refused_or_made() {
    assert_eq!(SessionData::default().begin_session_plan(), SessionCall::Forward);
    assert_eq!(wrapped(idle(None)).begin_session_plan(), SessionCall::Proceed);
    assert_eq!(
        wrapped(running(None, None)).begin_session_plan(),
        SessionCall::Refuse(failure(ERROR_SESSION_RUNNING))
    );
}

#[test]
fn runtime_begins_before_the_layer() {
    let mut data = wrapped(idle(None));
    assert_eq!(data.begin_session(STEREO, Err(failure(-11)), good_replies()).code, -11);
    assert!(!data.inner.unwrap().is_running());
    assert_eq!(data.begin_session(STEREO, Ok(()), good_replies()).code, SUCCESS);
    assert!(data.inner.unwrap().is_running());
    let again = data.begin_session(STEREO, Ok(()), good_replies());
    assert_eq!(again.code, ERROR_SESSION_RUNNING);
}

#[test]
fn session_ends_only_if_the_runtime_ends_it() {
    assert_eq!(SessionData::default().end_session_plan(), SessionCall::Forward);
    let mut data = wrapped(running(Some(5), Some(1)));
    assert_eq!(data.end_session_plan(), SessionCall::Proceed);
    assert_eq!(data.end_session(Err(failure(-12))).code, -12);
    assert!(data.inner.unwrap().is_running());
    assert_eq!(data.end_session(Ok(())).code, SUCCESS);
    assert_eq!(describe(&data.inner.unwrap()), (false, 0, Some(5), (0, 0), None));
    assert_eq!(data.end_session_plan(), SessionCall::Refuse(failure(ERROR_SESSION_NOT_RUNNING)));
    assert_eq!(data.end_session(Ok(())).code, ERROR_SESSION_NOT_RUNNING);
}

fn frame_replies(begun: i32, acquired: Result<u32, XrErr>) -> BeginFrameReplies {
    BeginFrameReplies { begun: failure(begun), acquired, ready: Ok(()) }
}

#[test]
fn frame_start_acquires_an_image() {
    let mut data = wrapped(running(Some(5), None));
    assert_eq!(data.frame_begun(failure(SUCCESS)), FrameCall::AcquireImage);
    assert_eq!(data.image_acquired(Ok(2)), FrameCall::WaitImage);
    assert_eq!(describe(&data.inner.unwrap()).4, Some(2));
}

#[test]
fn second_frame_start_uses_the_same_image() {
    let mut data = wrapped(running(Some(5), None));
    assert_eq!(data.begin_frame(frame_replies(SUCCESS, Ok(2))).code, SUCCESS);
    assert_eq!(data.begin_frame(frame_replies(SUCCESS, Ok(3))).code, SUCCESS);
    assert_eq!(describe(&data.inner.unwrap()).4, Some(2));
}

#[test]
fn frame_start_fails_as_the_runtime_does() {
    let mut data = wrapped(running(None, None));
    assert_eq!(data.begin_frame(frame_replies(-40, Ok(2))).code, -40);
    assert_eq!(data.begin_frame(frame_replies(SUCCESS, Err(failure(-41)))).code, -41);
    assert_eq!(describe(&data.inner.unwrap()).4, None);
    let late = BeginFrameReplies { ready: Err(failure(-42)), ..frame_replies(SUCCESS, Ok(2)) };
    assert_eq!(data.begin_frame(late).code, -42);
    assert_eq!(describe(&data.inner.unwrap()).4, Some(2));
}

#[test]
fn frames_start_only_in_running_sessions() {
    let mut data = wrapped(idle(None));
    assert_eq!(data.begin_frame(frame_replies(SUCCESS, Ok(2))).code, ERROR_SESSION_NOT_RUNNING);
    let mut other = SessionData::default();
    assert_eq!(other.begin_frame(frame_replies(SUCCESS, Ok(2))).code, SUCCESS);
    assert_eq!(other.begin_frame(frame_replies(7, Ok(2))).code, 7);
}

fn create_request() -> CreateRequest {
    CreateRequest {
        is_vulkan: true,
        graphics_binding: Some(GraphicsBinding::Vulkan {
            instance: 9,
            queue_family_index: 1,
            queue_index: 2,
        }),
        system_id: 77,
    }
}

fn create_replies() -> CreateReplies {
    CreateReplies {
        recorded: Ok(None),
        min_version: Ok(0),
        physical_device: true,
        space: Ok(()),
    }
}

#[test]
fn only_vulkan_sessions_are_wrapped() {
    let plan = create_request().plan();
    assert_eq!(plan, CreatePlan::Wrap { instance: 9, queue_family_index: 1, queue_index: 2 });
    let other = CreateRequest { is_vulkan: false, graphics_binding: None, system_id: 77 };
    assert_eq!(other.plan(), CreatePlan::LeaveAlone);
    assert!(SessionData::on_create(other, create_replies()).unwrap().inner.is_none());
    let mixed =
        CreateRequest { graphics_binding: Some(GraphicsBinding::Other), ..create_request() };
    assert_eq!(mixed.plan(), CreatePlan::Refuse(failure(ERROR_VALIDATION_FAILURE)));
    assert_eq!(
        SessionData::on_create(mixed, create_replies()).unwrap_err().code,
        ERROR_VALIDATION_FAILURE
    );
}

#[test]
fn new_sessions_are_idle() {
    let data = SessionData::on_create(create_request(), create_replies()).unwrap();
    assert_eq!(describe(&data.inner.unwrap()), (false, 0, None, (0, 0), None));
    assert_eq!(data.inner.unwrap().system_id, 77);
}

#[test]
fn creation_fails_where_the_runtime_does() {
    let create = |replies| SessionData::on_create(create_request(), replies);
    let replies = CreateReplies { recorded: Err(failure(-20)), ..create_replies() };
    assert_eq!(create(replies).unwrap_err().code, -20);
    let replies = CreateReplies { min_version: Err(failure(-21)), ..create_replies() };
    assert_eq!(create(replies).unwrap_err().code, -21);
    let known = Version { major: 1, minor: 2, patch: 3 };
    let replies = CreateReplies { recorded: Ok(Some(known)), ..replies };
    assert!(create(replies).unwrap().inner.is_some());
    let replies = CreateReplies { physical_device: false, ..create_replies() };
    assert!(create(replies).unwrap().inner.is_none());
    let replies = CreateReplies { space: Err(failure(-22)), ..create_replies() };
    assert_eq!(create(replies).unwrap_err().code, -22);
}

#[test]
fn recorded_version_comes_first() {
    let known = Version { major: 1, minor: 2, patch: 3 };
    assert_eq!(api_version(Some(known), 0), known);
    let packed = openxr::Version::new(1, 3, 7).into_raw();
    assert_eq!(api_version(None, packed), Version { major: 1, minor: 3, patch: 0 });
    let wrap = instance_wrap(known);
    assert_eq!(wrap.max_api_version, known);
    assert!(wrap.khr_external_memory_capabilities);
    assert!(wrap.khr_get_physical_device_properties2);
    assert!(wrap.khr_xcb_surface);
}

#[test]
fn device_has_all_queues_up_to_the_used_one() {
    let wrap = device_wrap(1, 2);
    assert_eq!((wrap.queue_family_index, wrap.queue_count, wrap.queue_index), (1, 3, 2));
    assert!(wrap.khr_copy_commands2);
}

#[test]
fn session_is_wrapped_step_by_step() {
    let (mut create, action) = Create::start(create_request());
    assert!(matches!(action, CreateAction::FindInstance { vulkan_instance: 9 }));
    let action = create.instance_found(Ok(None));
    assert!(matches!(action, CreateAction::AskRequirements { system_id: 77 }));
    let lowest = Version { major: 1, minor: 1, patch: 0 };
    match create.min_version_known(Ok((1 << 48) | (1 << 32))) {
        CreateAction::WrapDevice { instance, device } => {
            assert_eq!(instance, instance_wrap(lowest));
            assert_eq!(device, device_wrap(1, 2));
        }
        other => panic!("{other:?}"),
    }
    assert!(matches!(create.device_wrapped(true), CreateAction::CreateSpace));
    match create.space_created(Ok(())) {
        CreateAction::Return { result } => {
            assert_eq!(result.unwrap().inner.unwrap().system_id, 77);
        }
        other => panic!("{other:?}"),
    }
    assert_eq!(create.stage, CreateStage::Finished);
}

#[test]
fn nothing_is_asked_after_a_failure() {
    let (mut create, _) = Create::start(create_request());
    match create.instance_found(Err(failure(-20))) {
        CreateAction::Return { result } => assert_eq!(result.unwrap_err().code, -20),
        other => panic!("{other:?}"),
    }
    let (mut create, _) = Create::start(create_request());
    let known = Version { major: 1, minor: 2, patch: 3 };
    match create.instance_found(Ok(Some(known))) {
        CreateAction::WrapDevice { instance, .. } => assert_eq!(instance.max_api_version, known),
        other => panic!("{other:?}"),
    }
    match create.device_wrapped(false) {
        CreateAction::Return { result } => assert!(result.unwrap().inner.is_none()),
        other => panic!("{other:?}"),
    }
}

#[test]
fn camera_is_set_up_step_by_step() {
    let (mut setup, action) = CameraSetup::start();
    assert!(matches!(action, CameraAction::LoadPipelineCache));
    assert!(matches!(setup.cache_loaded(true), CameraAction::CreatePipeline));
    assert!(matches!(setup.pipeline_created(true), CameraAction::ListDevices));
    let other = DeviceInfo { properties: Vec::new(), has_devnode: true };
    let action = setup.devices_listed(Some(&[other, index_camera()]));
    assert!(matches!(action, CameraAction::OpenCamera { camera: 1 }));
    match setup.camera_opened(true) {
        CameraAction::Return { result } => assert_eq!(result.unwrap(), 1),
        other => panic!("{other:?}"),
    }
}

#[test]
fn no_camera_is_looked_for_without_a_pipeline() {
    let (mut setup, _) = CameraSetup::start();
    setup.cache_loaded(true);
    match setup.pipeline_created(false) {
        CameraAction::Return { result } => {
            assert_eq!(result.unwrap_err().code, ERROR_RUNTIME_FAILURE);
        }
        other => panic!("{other:?}"),
    }
    assert_eq!(setup.stage, CameraStage::Finished);
}

const PLAIN: SamplerSupport =
    SamplerSupport { conversion_extension: false, conversion_feature: false, midpoint_chroma: false };

fn index_camera() -> DeviceInfo {
    let property =
        Property { name: b"ID_MODEL_ID".to_vec(), value: b"2400".to_vec() };
    DeviceInfo { properties: vec![property], has_devnode: true }
}

fn camera_replies() -> CameraReplies {
    CameraReplies {
        pipeline_cache: true,
        pipeline: true,
        devices: Some(vec![index_camera()]),
        opened: true,
    }
}

#[test]
fn camera_pipeline_is_made_for_the_eye_size() {
    let request = camera_request(PLAIN, true, UVec2::new(30, 20));
    assert!(request.source_is_yuyv);
    assert_eq!(request.camera_size, UVec2::new(960, 960));
    assert_eq!(request.render_size, UVec2::new(30, 20));
    let usage = ImageUsage { sampled: true, transfer_src: true, ..ImageUsage::none() };
    assert_eq!(request.output_usage, usage);
    let resources =
        create_camera_resources(PLAIN, true, UVec2::new(30, 20), &camera_replies()).unwrap();
    assert_eq!(resources.camera, 0);
    assert_eq!(resources.pipeline.input_buffer_bytes, 960 * 960 * 4);
    assert_eq!(resources.pipeline.image_extent(), [60, 20, 1]);
}

#[test]
fn camera_trouble_is_a_runtime_failure() {
    let fails = |replies: CameraReplies| {
        create_camera_resources(PLAIN, false, UVec2::new(30, 20), &replies).unwrap_err().code
    };
    let cases = [
        CameraReplies { pipeline_cache: false, ..camera_replies() },
        CameraReplies { pipeline: false, ..camera_replies() },
        CameraReplies { devices: None, ..camera_replies() },
        CameraReplies { devices: Some(Vec::new()), ..camera_replies() },
        CameraReplies { opened: false, ..camera_replies() },
    ];
    for case in cases {
        assert_eq!(fails(case), ERROR_RUNTIME_FAILURE);
    }
}
