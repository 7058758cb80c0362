use xr_passthrough::api_layer::end_frame::{
    EndFrame, EndFrameAction, EndFrameReplies, LocatedViews,
};
use xr_passthrough::api_layer::frame::{
    camera_layer, holds_passthrough, CameraLayer, CameraView, Frame, FrameEndInfo, FrameLayer,
    Layer, Rect, ALPHA_BLEND, OPAQUE, PASSTHROUGH_LAYER,
};
use xr_passthrough::api_layer::session::{SessionData, SessionDataInner, SessionState};
use xr_passthrough::xr::{
    XrErr, ERROR_RUNTIME_FAILURE, ERROR_SESSION_NOT_RUNNING, ERROR_VALIDATION_FAILURE,
};
use xr_passthrough::UVec2;

const PROJECTION: i32 = 35;
const ADDITIVE: i32 = 2;

fn app(address: u64) -> Option<Layer> {
    Some(Layer { ty: PROJECTION, address })
}

fn passthrough(address: u64) -> Option<Layer> {
    Some(Layer { ty: PASSTHROUGH_LAYER, address })
}

fn info(environment_blend_mode: i32, layers: Vec<Option<Layer>>) -> FrameEndInfo {
    FrameEndInfo { display_time: 1234, environment_blend_mode, layers }
}

fn running(passthrough: Option<u64>, image_index: Option<u32>) -> SessionData {
    let size = UVec2::new(30, 20);
    let state = SessionState::Running { view_type: 2, passthrough, size, image_index };
    SessionData { inner: Some(SessionDataInner { state, system_id: 77 }) }
}

fn idle(passthrough: Option<u64>) -> SessionData {
    let state = SessionState::Idle { passthrough };
    SessionData { inner: Some(SessionDataInner { state, system_id: 77 }) }
}

fn attached(data: &SessionData) -> Option<u64> {
    match data.inner.unwrap().state {
        SessionState::Idle { passthrough } => passthrough,
        SessionState::Running { passthrough, .. } => passthrough,
    }
}

fn image(data: &SessionData) -> Option<u32> {
    match data.inner.unwrap().state {
        SessionState::Idle { .. } => None,
        SessionState::Running { image_index, .. } => image_index,
    }
}

fn located() -> LocatedViews {
    LocatedViews { position_valid: true, orientation_valid: true, count: 2 }
}

fn replies(object: u64) -> EndFrameReplies {
    EndFrameReplies {
        camera: Ok(()),
        object: Ok(object),
        views: Ok(located()),
        copied: true,
        released: Ok(()),
    }
}

fn camera() -> CameraLayer {
    CameraLayer {
        blend_texture_source_alpha: true,
        left: CameraView { view: 0, rect: Rect { x: 0, y: 0, width: 30, height: 20 } },
        right: CameraView { view: 1, rect: Rect { x: 30, y: 0, width: 30, height: 20 } },
    }
}

fn own(layer: Option<Layer>) -> Option<FrameLayer> {
    layer.map(FrameLayer::App)
}

fn end(data: &mut SessionData, info: FrameEndInfo, replies: EndFrameReplies) -> Result<Frame, i32> {
    data.end_frame(info, 99, replies).result.map_err(|e| e.code)
}

#[test]
fn camera_layer_is_one_half_for_each_eye() {
    assert_eq!(camera_layer(UVec2::new(30, 20)), camera());
}

#[test]
fn passthrough_layers_are_known_by_their_type() {
    assert!(holds_passthrough(&passthrough(1)));
    assert!(!holds_passthrough(&app(1)));
    assert!(!holds_passthrough(&None));
    let frame = info(OPAQUE, vec![app(1), None, passthrough(2), passthrough(3)]);
    assert_eq!(frame.count_passthrough(), 2);
    assert_eq!(frame.find_passthrough(), 2);
    assert_eq!(info(OPAQUE, vec![app(1)]).find_passthrough(), 1);
}

#[test]
fn camera_replaces_the_passthrough_layer() {
    let mut data = running(Some(5), Some(1));
    let frame =
        end(&mut data, info(OPAQUE, vec![app(1), passthrough(2), None, app(3)]), replies(5)).unwrap();
    assert_eq!(frame.display_time, 1234);
    assert_eq!(frame.environment_blend_mode, OPAQUE);
    assert_eq!(frame.layer_count, 4);
    assert_eq!(
        frame.layers,
        vec![own(app(1)), Some(FrameLayer::Camera(camera())), None, own(app(3))]
    );
    assert_eq!(image(&data), None);
    assert_eq!(attached(&data), Some(5));
}

#[test]
fn camera_goes_in_front_of_a_blended_frame() {
    let mut data = running(Some(5), Some(1));
    let frame = end(&mut data, info(ALPHA_BLEND, vec![app(1), app(2)]), replies(0)).unwrap();
    assert_eq!(frame.environment_blend_mode, OPAQUE);
    assert_eq!(
        frame.layers,
        vec![Some(FrameLayer::Camera(camera())), own(app(1)), own(app(2))]
    );
    assert_eq!(frame.layer_count, 3);
    assert_eq!(image(&data), None);
}

#[test]
fn camera_shows_without_any_other_layer() {
    let mut data = running(Some(5), Some(1));
    let frame = end(&mut data, info(ALPHA_BLEND, Vec::new()), replies(0)).unwrap();
    assert_eq!(frame.layers, vec![Some(FrameLayer::Camera(camera()))]);
    assert_eq!(frame.layer_count, 1);
}

#[test]
fn other_blend_modes_are_kept_with_the_camera() {
    let mut data = running(Some(5), Some(1));
    let frame = end(&mut data, info(ADDITIVE, vec![passthrough(2)]), replies(5)).unwrap();
    assert_eq!(frame.environment_blend_mode, ADDITIVE);
    assert_eq!(frame.layers, vec![Some(FrameLayer::Camera(camera()))]);
}

#[test]
fn plain_frames_go_through() {
    let mut data = running(None, Some(1));
    let frame = end(&mut data, info(OPAQUE, vec![app(1), None]), replies(0)).unwrap();
    assert_eq!(frame.environment_blend_mode, OPAQUE);
    assert_eq!(frame.layer_count, 2);
    assert_eq!(frame.layers, vec![own(app(1)), None]);
    assert_eq!(image(&data), Some(1));
    assert_eq!(attached(&data), None);
}

#[test]
fn frames_of_other_sessions_go_through() {
    let mut data = SessionData::default();
    let layers = vec![passthrough(1), passthrough(2)];
    let frame = end(&mut data, info(ALPHA_BLEND, layers), replies(0)).unwrap();
    assert_eq!(frame.environment_blend_mode, ALPHA_BLEND);
    assert_eq!(frame.layers, vec![own(passthrough(1)), own(passthrough(2))]);
    assert_eq!(frame.layer_count, 2);
}

#[test]
fn one_passthrough_layer_is_the_limit() {
    let mut data = running(Some(5), Some(1));
    let layers = vec![passthrough(1), passthrough(2)];
    let result = end(&mut data, info(OPAQUE, layers), replies(5));
    assert_eq!(result.unwrap_err(), ERROR_VALIDATION_FAILURE);
    assert_eq!(image(&data), Some(1));
}

#[test]
fn object_has_to_be_the_sessions_own() {
    let mut data = running(Some(5), Some(1));
    let result = end(&mut data, info(OPAQUE, vec![passthrough(1)]), replies(6));
    assert_eq!(result.unwrap_err(), ERROR_VALIDATION_FAILURE);
    let unknown = EndFrameReplies { object: Err(XrErr { code: -12 }), ..replies(5) };
    let result = end(&mut data, info(OPAQUE, vec![passthrough(1)]), unknown);
    assert_eq!(result.unwrap_err(), -12);
}

#[test]
fn idle_sessions_have_no_frames() {
    let mut data = idle(Some(5));
    let result = end(&mut data, info(OPAQUE, vec![passthrough(1)]), replies(5));
    assert_eq!(result.unwrap_err(), ERROR_SESSION_NOT_RUNNING);
    let mut data = idle(None);
    let result = end(&mut data, info(ALPHA_BLEND, Vec::new()), replies(5));
    assert_eq!(result.unwrap_err(), ERROR_SESSION_NOT_RUNNING);
    assert_eq!(attached(&data), Some(99));
}

#[test]
fn blended_frame_attaches_an_object() {
    let mut data = running(None, Some(1));
    let frame = end(&mut data, info(ALPHA_BLEND, vec![app(1)]), replies(0)).unwrap();
    assert_eq!(frame.layers[0], Some(FrameLayer::Camera(camera())));
    assert_eq!(attached(&data), Some(99));
    let mut data = running(None, Some(1));
    let broken = EndFrameReplies { camera: Err(XrErr { code: -2 }), ..replies(0) };
    let result = end(&mut data, info(ALPHA_BLEND, vec![app(1)]), broken);
    assert_eq!(result.unwrap_err(), ERROR_RUNTIME_FAILURE);
    assert_eq!(attached(&data), None);
}

#[test]
fn camera_is_left_out_without_a_pose() {
    for (position_valid, orientation_valid) in [(false, true), (true, false), (false, false)] {
        let mut data = running(Some(5), Some(1));
        let views = LocatedViews { position_valid, orientation_valid, count: 2 };
        let lost = EndFrameReplies { views: Ok(views), ..replies(5) };
        let layers = vec![app(1), passthrough(2), None];
        let frame = end(&mut data, info(ALPHA_BLEND, layers), lost).unwrap();
        assert_eq!(frame.environment_blend_mode, OPAQUE);
        assert_eq!(frame.layers, vec![own(app(1)), None]);
        assert_eq!(frame.layer_count, 2);
        assert_eq!(image(&data), Some(1));
    }
}

#[test]
fn camera_is_left_out_without_a_frame_start() {
    let mut data = running(Some(5), None);
    let frame = end(&mut data, info(ADDITIVE, vec![passthrough(2), app(1)]), replies(5)).unwrap();
    assert_eq!(frame.environment_blend_mode, OPAQUE);
    assert_eq!(frame.layers, vec![own(app(1))]);
    assert_eq!(frame.layer_count, 1);
}

#[test]
fn failures_on_the_way_are_answered() {
    let frame = || info(OPAQUE, vec![passthrough(1)]);
    let mut data = running(Some(5), Some(1));
    let lost = EndFrameReplies { views: Err(XrErr { code: -30 }), ..replies(5) };
    assert_eq!(end(&mut data, frame(), lost).unwrap_err(), -30);
    assert_eq!(image(&data), Some(1));
    let broken = EndFrameReplies { copied: false, ..replies(5) };
    assert_eq!(end(&mut data, frame(), broken).unwrap_err(), ERROR_RUNTIME_FAILURE);
    assert_eq!(image(&data), None);
    let mut data = running(Some(5), Some(1));
    let stuck = EndFrameReplies { released: Err(XrErr { code: -31 }), ..replies(5) };
    assert_eq!(end(&mut data, frame(), stuck).unwrap_err(), -31);
}

#[test]
fn end_frame_says_what_to_do_step_by_step() {
    let mut data = running(None, Some(3));
    let (mut frame, action) = EndFrame::start(&mut data, info(OPAQUE, vec![passthrough(8)]), 99);
    assert!(matches!(action, EndFrameAction::CreateCamera { size } if size == UVec2::new(30, 20)));
    let action = frame.camera_ready(&mut data, Ok(()));
    assert!(matches!(action, EndFrameAction::ResolvePassthrough { layer } if layer.address == 8));
    let action = frame.object_resolved(&data, Ok(99));
    assert!(matches!(
        action,
        EndFrameAction::LocateViews { view_type: 2, display_time: 1234 }
    ));
    let action = frame.views_located(&mut data, Ok(located()));
    assert!(matches!(
        action,
        EndFrameAction::CopyCamera { image_index: 3, width: 60, height: 20 }
    ));
    let action = frame.camera_copied(&data, true);
    assert!(matches!(action, EndFrameAction::ReleaseImage));
    match frame.image_released(&data, Ok(())) {
        EndFrameAction::Forward { frame } => {
            assert_eq!(frame.layers, vec![Some(FrameLayer::Camera(camera()))]);
        }
        other => panic!("{:?}", other),
    }
}

#[test]
fn views_do_not_matter_where_nothing_is_copied() {
    let one = LocatedViews { count: 1, ..located() };
    let strange = EndFrameReplies { views: Ok(one), ..replies(5) };
    let mut data = running(Some(5), None);
    let frame = end(&mut data, info(OPAQUE, vec![passthrough(2), app(1)]), strange).unwrap();
    assert_eq!(frame.layers, vec![own(app(1))]);
    let mut data = running(Some(5), Some(1));
    let frame = end(&mut data, info(OPAQUE, vec![app(1)]), strange).unwrap();
    assert_eq!(frame.layers, vec![own(app(1))]);
}
