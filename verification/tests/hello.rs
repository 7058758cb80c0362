use xr_passthrough::api_layer::end_frame::LocatedViews;
use xr_passthrough::api_layer::frame::{Rect, OPAQUE};
use xr_passthrough::hello::extensions::{choose_extensions, layer_search, LayerSearch};
use xr_passthrough::hello::render::{
    render_and_submit, EyeImage, FrameRender, Projection, RenderAction, RenderError, RenderReplies,
    RenderReply, Submission, SubmittedLayers,
};
use xr_passthrough::hello::session::{
    after_wait, App, AppMessage, EventStep, FrameState, MessageStep, SessionState, StopStep,
    WaiterStep, XrEvent, STATE_EXITING, STATE_READY, STATE_STOPPING,
};
use xr_passthrough::hello::window::{
    command_plans, depth_image, depth_sources, redraw_step, setup_window, AcquireOutcome,
    CommandPlan, DepthSource, RecreateError, RedrawStep, WindowBuffers, INDICES,
};
use xr_passthrough::vulkan::{Format, ImagePlan, ImageUsage};
use xr_passthrough::xr::XrErr;
use xr_passthrough::UVec2;

#[test]
fn session_comes_back_to_where_it_was() {
    let mut state = SessionState::Idle("waiter");
    assert!(state.is_stopped());
    assert_eq!(state.wait_time(), Some(100));
    assert_eq!(state.start(), Some("waiter"));
    assert!(!state.is_stopped());
    assert_eq!(state.wait_time(), None);
    assert_eq!(state.stop(), StopStep::EndAndJoin);
    assert!(state.is_stopped());
    assert_eq!(state.wait_time(), None);
    assert_eq!(state.put_frame_waiter("waiter"), None);
    assert!(matches!(state, SessionState::Idle("waiter")));
}

#[test]
fn early_start_waits_for_the_waiter() {
    let mut state = SessionState::StopWaitting;
    assert_eq!(state.start(), None);
    assert!(!state.is_stopped());
    assert_eq!(state.put_frame_waiter("waiter"), Some("waiter"));
    assert!(matches!(state, SessionState::Running));
}

#[test]
fn pending_start_can_be_cancelled() {
    let mut state: SessionState<u8> = SessionState::StartWaitting;
    assert_eq!(state.ensure_stop(), StopStep::CancelStart);
    assert!(matches!(state, SessionState::StopWaitting));
}

#[test]
fn stopping_twice_makes_the_session_unusable() {
    let mut state = SessionState::Idle("waiter");
    assert_eq!(state.stop(), StopStep::AlreadyStopped);
    assert!(matches!(state, SessionState::Invalid));
    let mut state: SessionState<u8> = SessionState::StopWaitting;
    assert_eq!(state.stop(), StopStep::AlreadyStopped);
    assert!(matches!(state, SessionState::Invalid));
}

fn frame_state(should_render: bool) -> FrameState {
    FrameState { predicted_display_time: 1234, should_render }
}

#[test]
fn any_error_ends_the_waiting_thread() {
    assert_eq!(after_wait(Ok(frame_state(true))), WaiterStep::Announce(frame_state(true)));
    assert_eq!(after_wait(Err(XrErr { code: -16 })), WaiterStep::Exit);
    assert_eq!(after_wait(Err(XrErr { code: -2 })), WaiterStep::Exit);
}

#[test]
fn frames_are_drawn_or_skipped_while_the_session_runs() {
    let mut app = App { exiting: false, state: SessionState::<u8>::Running };
    let step = app.user_event(AppMessage::Frame(frame_state(true)));
    assert!(matches!(step, MessageStep::RenderFrame(f) if f == frame_state(true)));
    let step = app.user_event(AppMessage::Frame(frame_state(false)));
    assert!(matches!(step, MessageStep::SkipFrame(f) if f == frame_state(false)));
    app.state.stop();
    let step = app.user_event(AppMessage::Frame(frame_state(true)));
    assert!(matches!(step, MessageStep::Nothing));
}

#[test]
fn runtime_starts_and_stops_the_application() {
    let mut app = App::new(7u8);
    assert!(!app.exiting);
    assert_eq!(app.xr_event(XrEvent::Other), EventStep::Nothing);
    assert_eq!(app.xr_event(XrEvent::SessionStateChanged(5)), EventStep::Nothing);
    assert_eq!(app.xr_event(XrEvent::SessionStateChanged(STATE_READY)), EventStep::Begin);
    assert_eq!(app.state.start(), Some(7));
    let step = app.xr_event(XrEvent::SessionStateChanged(STATE_STOPPING));
    assert_eq!(step, EventStep::Stop(StopStep::EndAndJoin));
    let step = app.user_event(AppMessage::WaiterExited(7));
    assert!(matches!(step, MessageStep::WaiterBack { again: None, exit: false }));
    assert!(matches!(app.state, SessionState::Idle(7)));
}

#[test]
fn application_leaves_once_the_waiter_is_back() {
    let mut app = App { exiting: false, state: SessionState::StopWaitting };
    assert_eq!(app.xr_event(XrEvent::SessionStateChanged(STATE_EXITING)), EventStep::Break);
    assert!(app.exiting);
    let step = app.user_event(AppMessage::WaiterExited(7u8));
    assert!(matches!(step, MessageStep::WaiterBack { again: None, exit: true }));
}

#[test]
fn layers_are_asked_in_order() {
    assert_eq!(layer_search(0, &[]), LayerSearch::NotFound);
    assert_eq!(layer_search(3, &[]), LayerSearch::Ask(0));
    assert_eq!(layer_search(3, &[Ok(false)]), LayerSearch::Ask(1));
    assert_eq!(layer_search(3, &[Ok(false), Ok(true)]), LayerSearch::Found(1));
    assert_eq!(layer_search(3, &[Ok(true), Ok(true)]), LayerSearch::Found(0));
    assert_eq!(layer_search(2, &[Ok(false), Ok(false)]), LayerSearch::NotFound);
    let error = XrErr { code: -2 };
    assert_eq!(layer_search(3, &[Ok(false), Err(error), Ok(true)]), LayerSearch::Failed(error));
}

#[test]
fn passthrough_comes_from_the_runtime_or_a_layer() {
    let own = choose_extensions(true, false, None);
    assert!(own.extensions.htc_passthrough && !own.extensions.khr_composition_layer_depth);
    assert_eq!(own.layer, None);
    let layered = choose_extensions(false, true, Some(2));
    assert!(layered.extensions.htc_passthrough && layered.extensions.khr_composition_layer_depth);
    assert_eq!(layered.layer, Some(2));
    let none = choose_extensions(false, false, None);
    assert!(!none.extensions.htc_passthrough);
    assert!(!none.extensions.khr_vulkan_enable);
}

#[test]
fn every_vertex_of_the_cube_is_used() {
    assert_eq!(INDICES.len(), 36);
    for vertex in 0..8 {
        assert!(INDICES.contains(&vertex));
    }
    assert!(INDICES.iter().all(|&i| i < 8));
}

#[test]
fn window_has_two_images_at_least() {
    let usage = ImageUsage { color_attachment: true, transfer_dst: true, ..ImageUsage::none() };
    let plan = setup_window(&[37, 44], 1, UVec2::new(640, 480)).unwrap();
    assert_eq!(plan.min_image_count, 2);
    assert_eq!(plan.format, Format::B8G8R8A8Unorm);
    assert_eq!(plan.extent, UVec2::new(640, 480));
    assert_eq!(plan.usage, usage);
    let plan = setup_window(&[37, 23, 30], 3, UVec2::new(640, 480)).unwrap();
    assert_eq!(plan.min_image_count, 3);
    assert_eq!(plan.format, Format::B8G8R8Unorm);
    assert!(setup_window(&[43], 3, UVec2::new(640, 480)).is_none());
    let image = plan.image();
    assert_eq!((image.format, image.width, image.height), (Format::B8G8R8Unorm, 640, 480));
    assert_eq!((image.array_layers, image.usage), (1, usage));
}

#[test]
fn depth_image_matches_the_color_image() {
    let color = ImagePlan {
        format: Format::R8G8B8A8Unorm,
        width: 30,
        height: 20,
        array_layers: 2,
        usage: ImageUsage::none(),
    };
    let depth = depth_image(color);
    assert_eq!(depth.format, Format::D32Sfloat);
    assert_eq!((depth.width, depth.height, depth.array_layers), (30, 20, 2));
    let usage = ImageUsage { depth_stencil_attachment: true, ..ImageUsage::none() };
    assert_eq!(depth.usage, usage);
}

#[test]
fn images_share_depth_unless_they_have_their_own() {
    assert_eq!(depth_sources(2, None), vec![DepthSource::Shared, DepthSource::Shared]);
    assert_eq!(
        depth_sources(2, Some(2)),
        vec![DepthSource::Swapchain(0), DepthSource::Swapchain(1)]
    );
}

#[test]
fn uniform_buffers_only_grow() {
    let mut buffers = WindowBuffers::new();
    assert_eq!(buffers.missing(2), 2);
    assert_eq!(buffers.recreate(2, 2, true), Ok(()));
    assert_eq!(buffers.take_last_use(1), None);
    buffers.put_use(1, "drawn");
    assert_eq!(buffers.missing(3), 1);
    assert_eq!(buffers.recreate(3, 1, true), Ok(()));
    assert_eq!(buffers.uses, vec![None, Some("drawn"), None]);
    assert_eq!(buffers.missing(2), 0);
    assert_eq!(buffers.recreate(2, 0, true), Ok(()));
    assert_eq!(buffers.command_buffers, command_plans(2));
    assert_eq!(buffers.uniform_buffers, 3);
    assert_eq!(buffers.uses.len(), 3);
    assert_eq!(buffers.take_last_use(1), Some("drawn"));
    assert_eq!(buffers.take_last_use(1), None);
}

#[test]
fn each_image_has_its_uniform_buffer() {
    let plan = |place| CommandPlan { image: place, uniform_buffer: place };
    assert_eq!(command_plans(3), vec![plan(0), plan(1), plan(2)]);
    assert_eq!(command_plans(0), vec![]);
}

#[test]
fn failing_to_recreate_keeps_the_lists_together() {
    let mut buffers = WindowBuffers::new();
    buffers.recreate(2, 2, true).unwrap();
    buffers.put_use(0, "drawn");
    assert_eq!(buffers.recreate(5, 1, false), Err(RecreateError::UniformBuffers));
    assert_eq!(buffers.uniform_buffers, 3);
    assert_eq!(buffers.uses, vec![Some("drawn"), None, None]);
    assert_eq!(buffers.command_buffers, command_plans(2));
    assert_eq!(buffers.missing(5), 2);
    assert_eq!(buffers.recreate(5, 2, false), Err(RecreateError::Commands));
    assert_eq!(buffers.uniform_buffers, 5);
    assert_eq!(buffers.uses, vec![Some("drawn"), None, None, None, None]);
    assert_eq!(buffers.command_buffers, command_plans(2));
    assert_eq!(buffers.recreate(5, 0, true), Ok(()));
    assert_eq!(buffers.uses, vec![Some("drawn"), None, None, None, None]);
    assert_eq!(buffers.command_buffers, command_plans(5));
}

#[test]
fn window_is_redrawn_recreated_or_left() {
    assert_eq!(redraw_step(AcquireOutcome::Image(2)), RedrawStep::Draw(2));
    let again = RedrawStep::Recreate { await_image: true };
    assert_eq!(redraw_step(AcquireOutcome::Suboptimal), again);
    let anew = RedrawStep::Recreate { await_image: false };
    assert_eq!(redraw_step(AcquireOutcome::OutOfDate), anew);
    assert_eq!(redraw_step(AcquireOutcome::Timeout), RedrawStep::Skip);
    assert_eq!(redraw_step(AcquireOutcome::NotReady), RedrawStep::Skip);
    assert_eq!(redraw_step(AcquireOutcome::Failed), RedrawStep::Fail);
}

fn views(position_valid: bool, orientation_valid: bool, count: usize) -> LocatedViews {
    LocatedViews { position_valid, orientation_valid, count }
}

fn render_replies() -> RenderReplies {
    RenderReplies {
        begun: Ok(()),
        views: views(true, true, 2),
        acquired: Ok(1),
        depth_acquired: Ok(1),
        depth_waited: Ok(()),
        drawn: true,
        released: Ok(()),
        depth_released: Ok(()),
        ended: Ok(()),
    }
}

fn scene(depth: bool) -> Projection {
    let rect = Rect { x: 0, y: 0, width: 30, height: 20 };
    Projection {
        blend_texture_source_alpha: true,
        left: EyeImage { view: 0, array_index: 0, rect },
        right: EyeImage { view: 1, array_index: 1, rect },
        depth,
    }
}

#[test]
fn scene_is_shown_over_the_surroundings() {
    let size = UVec2::new(30, 20);
    let outcome = render_and_submit(1234, true, Some(9), size, &render_replies());
    let layers = SubmittedLayers::SceneOverSurroundings { passthrough: 9, scene: scene(true) };
    let expected = Submission { display_time: 1234, blend_mode: OPAQUE, layers };
    assert_eq!(outcome.submission, Some(expected));
    assert_eq!(outcome.result, Ok(()));
    let outcome = render_and_submit(1234, false, None, size, &render_replies());
    assert_eq!(outcome.submission.unwrap().layers, SubmittedLayers::Scene(scene(false)));
}

#[test]
fn nothing_is_shown_without_a_pose() {
    let size = UVec2::new(30, 20);
    for lost in [views(false, true, 2), views(true, false, 2), views(false, false, 0)] {
        let replies = RenderReplies { views: lost, ..render_replies() };
        let outcome = render_and_submit(1234, true, Some(9), size, &replies);
        assert_eq!(outcome.submission, Some(Submission::empty(1234)));
        assert_eq!(outcome.result, Ok(()));
    }
    assert_eq!(Submission::empty(5).layers, SubmittedLayers::Empty);
}

#[test]
fn frame_fails_at_the_first_obstacle() {
    let error = XrErr { code: -2 };
    let fails = |has_depth, replies: RenderReplies| {
        let outcome = render_and_submit(1234, has_depth, None, UVec2::new(30, 20), &replies);
        assert_eq!(outcome.submission, None);
        outcome.result.unwrap_err()
    };
    let xr = RenderError::Xr(error);
    assert_eq!(fails(false, RenderReplies { begun: Err(error), ..render_replies() }), xr);
    let one_eyed = RenderReplies { views: views(true, true, 1), ..render_replies() };
    assert_eq!(fails(false, one_eyed), RenderError::UnexpectedViews);
    assert_eq!(fails(false, RenderReplies { acquired: Err(error), ..render_replies() }), xr);
    assert_eq!(fails(true, RenderReplies { depth_acquired: Err(error), ..render_replies() }), xr);
    assert_eq!(fails(true, RenderReplies { depth_waited: Err(error), ..render_replies() }), xr);
    let undrawn = RenderReplies { drawn: false, ..render_replies() };
    assert_eq!(fails(false, undrawn), RenderError::Drawing);
    assert_eq!(fails(false, RenderReplies { released: Err(error), ..render_replies() }), xr);
    assert_eq!(fails(true, RenderReplies { depth_released: Err(error), ..render_replies() }), xr);
}

#[test]
fn depth_does_not_matter_without_a_depth_swapchain() {
    let error = XrErr { code: -2 };
    let replies = RenderReplies {
        depth_acquired: Err(error),
        depth_waited: Err(error),
        depth_released: Err(error),
        ..render_replies()
    };
    let outcome = render_and_submit(1234, false, None, UVec2::new(30, 20), &replies);
    assert_eq!(outcome.result, Ok(()));
}

#[test]
fn end_of_the_frame_may_fail() {
    let error = XrErr { code: -2 };
    let replies = RenderReplies { ended: Err(error), ..render_replies() };
    let outcome = render_and_submit(1234, false, None, UVec2::new(30, 20), &replies);
    assert!(outcome.submission.is_some());
    assert_eq!(outcome.result, Err(RenderError::Xr(error)));
}

#[test]
fn frame_says_what_to_do_step_by_step() {
    let (mut render, action) = FrameRender::start(1234, true, None, UVec2::new(30, 20));
    assert_eq!(action, RenderAction::BeginFrame);
    let action = render.step(RenderReply::Done(Ok(())));
    assert_eq!(action, RenderAction::LocateViews { display_time: 1234 });
    let action = render.step(RenderReply::Located(views(true, true, 2)));
    assert_eq!(action, RenderAction::AcquireImage);
    let action = render.step(RenderReply::Acquired(Ok(2)));
    assert_eq!(action, RenderAction::WaitImage);
    let action = render.step(RenderReply::Done(Ok(())));
    assert_eq!(action, RenderAction::AcquireDepthImage);
    let action = render.step(RenderReply::Acquired(Ok(2)));
    assert_eq!(action, RenderAction::WaitDepthImage);
    let action = render.step(RenderReply::Done(Ok(())));
    assert_eq!(action, RenderAction::Draw { image_index: 2 });
    let action = render.step(RenderReply::Drawn(true));
    assert_eq!(action, RenderAction::ReleaseImage);
    let action = render.step(RenderReply::Done(Ok(())));
    assert_eq!(action, RenderAction::ReleaseDepthImage);
    let action = render.step(RenderReply::Done(Ok(())));
    assert!(matches!(action, RenderAction::EndFrame(_)));
    let action = render.step(RenderReply::Done(Ok(())));
    assert_eq!(action, RenderAction::Return(Ok(())));
}
