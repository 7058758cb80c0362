//! The end of a frame: passthrough layers are replaced by the camera image.
use crate::api_layer::frame::{camera_layer, Frame, FrameEndInfo, Layer, ALPHA_BLEND};
use crate::api_layer::session::{SessionData, SessionDataInner, SessionState};
use crate::vulkan::UVec2;
use crate::xr::{
    XrErr, ERROR_RUNTIME_FAILURE, ERROR_SESSION_NOT_RUNNING, ERROR_VALIDATION_FAILURE,
};
use vstd::prelude::*;

verus! {

use crate::api_layer::frame::{
    camera_frame, camera_layer_for, fits_runtime, has_room_for_camera, is_passthrough,
    passthrough_count, passthrough_place, plain_frame, stripped_frame, FrameEndInfoView, FrameView,
};
use crate::api_layer::session::attach_result;

/// Where the runtime places the user's eyes.
#[derive(Debug, Eq, PartialEq, Clone, Copy, Structural)]
pub struct LocatedViews {
    pub position_valid: bool,
    pub orientation_valid: bool,
    /// Number of views.
    pub count: usize,
}

/// What the end of a frame waits for.
#[derive(Debug, Clone, Copy)]
pub enum EndFrameStage {
    Camera,
    Object { attached: u64 },
    Views,
    Copy { size: UVec2, views: usize },
    Release { size: UVec2 },
    Finished,
}

/// What is to be done next.
#[derive(Debug)]
pub enum EndFrameAction {
    /// Set the camera up for eyes of this size.
    CreateCamera { size: UVec2 },
    /// Look up which passthrough object this layer names.
    ResolvePassthrough { layer: Layer },
    /// Ask the runtime where the eyes will be.
    LocateViews { view_type: i32, display_time: i64 },
    /// Copy the camera image, stretched, to this image of our swapchain, which
    /// is `width` times `height` pixels large.
    CopyCamera { image_index: u32, width: u32, height: u32 },
    /// Give the image of our swapchain back to the runtime.
    ReleaseImage,
    /// Hand this frame to the runtime; its answer is the application's.
    Forward { frame: Frame },
    /// Answer the application with this.
    Fail { error: XrErr },
}

/// What an [`EndFrameAction`] says.
pub enum EndFrameActionView {
    CreateCamera { size: UVec2 },
    ResolvePassthrough { layer: Layer },
    LocateViews { view_type: i32, display_time: i64 },
    CopyCamera { image_index: u32, width: u32, height: u32 },
    ReleaseImage,
    Forward { frame: FrameView },
    Fail { error: XrErr },
}

impl View for EndFrameAction {
    type V = EndFrameActionView;

    open spec fn view(&self) -> EndFrameActionView {
        match *self {
            EndFrameAction::CreateCamera { size } => EndFrameActionView::CreateCamera { size },
            EndFrameAction::ResolvePassthrough { layer } => EndFrameActionView::ResolvePassthrough {
                layer,
            },
            EndFrameAction::LocateViews { view_type, display_time } => EndFrameActionView::LocateViews {
                view_type,
                display_time,
            },
            EndFrameAction::CopyCamera { image_index, width, height } => EndFrameActionView::CopyCamera {
                image_index,
                width,
                height,
            },
            EndFrameAction::ReleaseImage => EndFrameActionView::ReleaseImage,
            EndFrameAction::Forward { frame } => EndFrameActionView::Forward { frame: frame@ },
            EndFrameAction::Fail { error } => EndFrameActionView::Fail { error },
        }
    }
}

/// Where one step leads: what is waited for next, the session after the step,
/// and what is to be done.
pub struct EndFrameStep {
    pub stage: EndFrameStage,
    pub session: Option<SessionState>,
    pub action: EndFrameActionView,
}

/// The end of the frame fails.
pub open spec fn frame_fails(session: Option<SessionState>, code: i32) -> EndFrameStep {
    EndFrameStep {
        stage: EndFrameStage::Finished,
        session,
        action: EndFrameActionView::Fail { error: XrErr { code } },
    }
}

/// The end of the frame is left to the runtime.
pub open spec fn frame_forwarded(session: Option<SessionState>, frame: FrameView) -> EndFrameStep {
    EndFrameStep {
        stage: EndFrameStage::Finished,
        session,
        action: EndFrameActionView::Forward { frame },
    }
}

/// The first step. Frames of sessions that are not wrapped go through, and so
/// do frames that neither have a passthrough layer nor ask for blending with
/// the surroundings. More than one passthrough layer is not supported.
pub open spec fn end_frame_first(
    session: Option<SessionState>,
    info: FrameEndInfoView,
    fresh: u64,
) -> EndFrameStep {
    match session {
        None => frame_forwarded(session, plain_frame(info)),
        Some(state) => if passthrough_count(info.layers) > 1 {
            frame_fails(session, ERROR_VALIDATION_FAILURE)
        } else if passthrough_count(info.layers) == 0 && info.environment_blend_mode
            != ALPHA_BLEND {
            frame_forwarded(session, plain_frame(info))
        } else {
            match state {
                SessionState::Running { passthrough: None, size, .. } => EndFrameStep {
                    stage: EndFrameStage::Camera,
                    session,
                    action: EndFrameActionView::CreateCamera { size },
                },
                _ => end_frame_attached(attach_result(state, fresh, Ok(())), info),
            }
        },
    }
}

/// The step after a passthrough object was asked for. If the application
/// submitted a passthrough layer, its object is looked up next.
pub open spec fn end_frame_attached(
    attached: (SessionState, Result<u64, XrErr>),
    info: FrameEndInfoView,
) -> EndFrameStep {
    match attached.1 {
        Err(e) => frame_fails(Some(attached.0), e.code),
        Ok(id) => if passthrough_place(info.layers) < info.layers.len() {
            EndFrameStep {
                stage: EndFrameStage::Object { attached: id },
                session: Some(attached.0),
                action: EndFrameActionView::ResolvePassthrough {
                    layer: info.layers[passthrough_place(info.layers) as int]->Some_0,
                },
            }
        } else {
            end_frame_checked(attached.0, info)
        },
    }
}

/// The step after the application's passthrough object was looked up: it has to
/// be the session's own.
pub open spec fn end_frame_resolved(
    state: SessionState,
    info: FrameEndInfoView,
    attached: u64,
    object: Result<u64, XrErr>,
) -> EndFrameStep {
    match object {
        Err(e) => frame_fails(Some(state), e.code),
        Ok(id) => if id != attached {
            frame_fails(Some(state), ERROR_VALIDATION_FAILURE)
        } else {
            end_frame_checked(state, info)
        },
    }
}

/// The step after all checks on the frame: only a running session has frames.
pub open spec fn end_frame_checked(state: SessionState, info: FrameEndInfoView) -> EndFrameStep {
    match state {
        SessionState::Idle { .. } => frame_fails(Some(state), ERROR_SESSION_NOT_RUNNING),
        SessionState::Running { view_type, .. } => EndFrameStep {
            stage: EndFrameStage::Views,
            session: Some(state),
            action: EndFrameActionView::LocateViews { view_type, display_time: info.display_time },
        },
    }
}

/// The step after the eyes were located. Without a valid position and
/// orientation, or without an image to draw to, the camera is left out of the
/// frame. Otherwise the image at hand is used up.
pub open spec fn end_frame_located(
    state: SessionState,
    info: FrameEndInfoView,
    views: Result<LocatedViews, XrErr>,
) -> EndFrameStep {
    match (state, views) {
        (SessionState::Running { view_type, passthrough, size, image_index }, Ok(located)) => if !located.position_valid
            || !located.orientation_valid || image_index is None {
            frame_forwarded(Some(state), stripped_frame(info))
        } else {
            EndFrameStep {
                stage: EndFrameStage::Copy { size, views: located.count },
                session: Some(
                    SessionState::Running { view_type, passthrough, size, image_index: None },
                ),
                action: EndFrameActionView::CopyCamera {
                    image_index: image_index->Some_0,
                    width: (size.x * 2) as u32,
                    height: size.y,
                },
            }
        },
        (_, Err(e)) => frame_fails(Some(state), e.code),
        (SessionState::Idle { .. }, _) => frame_fails(Some(state), ERROR_SESSION_NOT_RUNNING),
    }
}

/// The step after the image was given back: the camera is in the frame.
pub open spec fn end_frame_released(
    state: SessionState,
    info: FrameEndInfoView,
    size: UVec2,
    released: Result<(), XrErr>,
) -> EndFrameStep {
    match released {
        Err(e) => frame_fails(Some(state), e.code),
        Ok(()) => frame_forwarded(Some(state), camera_frame(info, camera_layer_for(size))),
    }
}

/// A frame that is being ended.
#[derive(Debug)]
pub struct EndFrame {
    pub info: FrameEndInfo,
    /// Number for a passthrough object, if one has to be made.
    pub fresh: u64,
    pub stage: EndFrameStage,
}

impl EndFrame {
    /// Whether the frame can be ended for `data`: what is waited for agrees
    /// with the session, and the number of layers fits where the runtime reads
    /// it.
    pub open spec fn fits(self, data: SessionData) -> bool {
        &&& self.info@.layers.len() <= u32::MAX
        &&& data.valid()
        &&& self.stage is Finished || has_room_for_camera(self.info@)
        &&& match self.stage {
            EndFrameStage::Finished => true,
            EndFrameStage::Camera => data.session() matches Some(
                SessionState::Running { passthrough: None, .. },
            ),
            EndFrameStage::Object { attached } => data.session() matches Some(state)
                && state.attached() == Some(attached),
            EndFrameStage::Views => data.session() matches Some(
                SessionState::Running { passthrough: Some(_), .. },
            ),
            EndFrameStage::Copy { .. } => data.session() matches Some(
                SessionState::Running { passthrough: Some(_), image_index: None, .. },
            ),
            EndFrameStage::Release { .. } => data.session() matches Some(
                SessionState::Running { passthrough: Some(_), image_index: None, .. },
            ),
        }
    }

    /// Whether one step led from here to `self` and `data`.
    pub open spec fn stepped(
        self,
        before: EndFrame,
        data_before: SessionData,
        data: SessionData,
        action: EndFrameAction,
        step: EndFrameStep,
    ) -> bool {
        &&& self.info == before.info
        &&& self.fresh == before.fresh
        &&& self.stage == step.stage
        &&& data.session() == step.session
        &&& action@ == step.action
        &&& self.fits(data)
        &&& data.inner matches Some(inner) ==> inner.system_id
            == data_before.inner->Some_0.system_id
    }

    fn fail(&mut self, code: i32) -> (action: EndFrameAction)
        ensures
            final(self).info == old(self).info,
            final(self).fresh == old(self).fresh,
            final(self).stage is Finished,
            action@ == (EndFrameActionView::Fail { error: XrErr { code } }),
    {
        self.stage = EndFrameStage::Finished;
        EndFrameAction::Fail { error: XrErr { code } }
    }

    fn forward(&mut self, frame: Frame) -> (action: EndFrameAction)
        ensures
            final(self).info == old(self).info,
            final(self).fresh == old(self).fresh,
            final(self).stage is Finished,
            action@ == (EndFrameActionView::Forward { frame: frame@ }),
    {
        self.stage = EndFrameStage::Finished;
        EndFrameAction::Forward { frame }
    }

    fn checked(&mut self, data: &SessionData) -> (action: EndFrameAction)
        requires
            old(self).info@.layers.len() <= u32::MAX,
            has_room_for_camera(old(self).info@),
            data.valid(),
            data.session() matches Some(state) && state.attached() is Some,
        ensures
            final(self).stepped(
                *old(self),
                *data,
                *data,
                action,
                end_frame_checked(data.session()->Some_0, old(self).info@),
            ),
    {
        match data.inner {
            Some(SessionDataInner { state: SessionState::Running { view_type, .. }, .. }) => {
                self.stage = EndFrameStage::Views;
                EndFrameAction::LocateViews { view_type, display_time: self.info.display_time }
            },
            _ => self.fail(ERROR_SESSION_NOT_RUNNING),
        }
    }

    fn attached(&mut self, data: &SessionData, id: u64) -> (action: EndFrameAction)
        requires
            old(self).info@.layers.len() <= u32::MAX,
            has_room_for_camera(old(self).info@),
            data.valid(),
            data.session() matches Some(state) && state.attached() == Some(id),
        ensures
            final(self).stepped(
                *old(self),
                *data,
                *data,
                action,
                end_frame_attached((data.session()->Some_0, Ok(id)), old(self).info@),
            ),
    {
        let place = self.info.find_passthrough();
        if place < self.info.layers.len() {
            if let Some(layer) = self.info.layers[place] {
                self.stage = EndFrameStage::Object { attached: id };
                return EndFrameAction::ResolvePassthrough { layer };
            }
        }
        self.checked(data)
    }

    /// Starts to end a frame. `fresh` is the number of a passthrough object, if
    /// one has to be made.
    pub fn start(data: &mut SessionData, info: FrameEndInfo, fresh: u64) -> (started: (
        EndFrame,
        EndFrameAction,
    ))
        requires
            old(data).valid(),
            info@.layers.len() <= u32::MAX,
            old(data).inner is Some ==> fits_runtime(info@),
        ensures
            started.0.info == info,
            started.0.fresh == fresh,
            started.0.stage == end_frame_first(old(data).session(), info@, fresh).stage,
            final(data).session() == end_frame_first(old(data).session(), info@, fresh).session,
            started.1@ == end_frame_first(old(data).session(), info@, fresh).action,
            started.0.fits(*final(data)),
            final(data).inner matches Some(inner) ==> inner.system_id
                == old(data).inner->Some_0.system_id,
    {
        let mut frame = EndFrame { info, fresh, stage: EndFrameStage::Finished };
        let mut inner = match data.inner {
            Some(inner) => inner,
            None => {
                let plain = frame.info.plain();
                let action = frame.forward(plain);
                return (frame, action);
            },
        };
        let count = frame.info.count_passthrough();
        proof {
            lemma_passthrough_place(info@.layers);
        }
        if count > 1 {
            let action = frame.fail(ERROR_VALIDATION_FAILURE);
            return (frame, action);
        }
        if count == 0 && frame.info.environment_blend_mode != ALPHA_BLEND {
            let plain = frame.info.plain();
            let action = frame.forward(plain);
            return (frame, action);
        }
        if let Some(size) = inner.passthrough_needs_camera() {
            frame.stage = EndFrameStage::Camera;
            return (frame, EndFrameAction::CreateCamera { size });
        }
        let result = inner.get_or_add_passthrough(fresh, Ok(()));
        data.inner = Some(inner);
        match result {
            Ok(id) => {
                let action = frame.attached(data, id);
                (frame, action)
            },
            Err(e) => {
                let action = frame.fail(e.code);
                (frame, action)
            },
        }
    }

    /// Goes on after setting the camera up: the passthrough object is attached,
    /// if that went well.
    pub fn camera_ready(&mut self, data: &mut SessionData, camera: Result<(), XrErr>) -> (action:
        EndFrameAction)
        requires
            old(self).fits(*old(data)),
            old(self).stage is Camera,
        ensures
            final(self).stepped(
                *old(self),
                *old(data),
                *final(data),
                action,
                end_frame_attached(
                    attach_result(old(data).session()->Some_0, old(self).fresh, camera),
                    old(self).info@,
                ),
            ),
    {
        let mut inner = data.inner.unwrap();
        let result = inner.get_or_add_passthrough(self.fresh, camera);
        data.inner = Some(inner);
        match result {
            Ok(id) => self.attached(data, id),
            Err(e) => self.fail(e.code),
        }
    }

    /// Goes on with the passthrough object that the application's layer names.
    pub fn object_resolved(&mut self, data: &SessionData, object: Result<u64, XrErr>) -> (action:
        EndFrameAction)
        requires
            old(self).fits(*data),
            old(self).stage is Object,
        ensures
            final(self).stepped(
                *old(self),
                *data,
                *data,
                action,
                end_frame_resolved(
                    data.session()->Some_0,
                    old(self).info@,
                    old(self).stage->attached,
                    object,
                ),
            ),
    {
        let id: u64 = match object {
            Ok(id) => id,
            Err(e) => return self.fail(e.code),
        };
        if let EndFrameStage::Object { attached } = self.stage {
            if id != attached {
                return self.fail(ERROR_VALIDATION_FAILURE);
            }
        }
        self.checked(data)
    }

    /// Goes on with the place of the user's eyes.
    pub fn views_located(&mut self, data: &mut SessionData, views: Result<LocatedViews, XrErr>) -> (
    action: EndFrameAction)
        requires
            old(self).fits(*old(data)),
            old(self).stage is Views,
        ensures
            final(self).stepped(
                *old(self),
                *old(data),
                *final(data),
                action,
                end_frame_located(old(data).session()->Some_0, old(self).info@, views),
            ),
    {
        let located = match views {
            Ok(located) => located,
            Err(e) => return self.fail(e.code),
        };
        let mut inner = data.inner.unwrap();
        if let SessionState::Running { view_type, passthrough, size, image_index } = inner.state {
            if located.position_valid && located.orientation_valid {
                if let Some(index) = image_index {
                    inner.state =
                    SessionState::Running { view_type, passthrough, size, image_index: None };
                    data.inner = Some(inner);
                    self.stage = EndFrameStage::Copy { size, views: located.count };
                    return EndFrameAction::CopyCamera {
                        image_index: index,
                        width: size.x * 2,
                        height: size.y,
                    };
                }
            }
        }
        let stripped = self.info.stripped();
        self.forward(stripped)
    }

    /// Goes on after copying the camera image. A frame that gets here has two
    /// views.
    pub fn camera_copied(&mut self, data: &SessionData, copied: bool) -> (action: EndFrameAction)
        requires
            old(self).fits(*data),
            old(self).stage is Copy,
            copied ==> old(self).stage->views == 2,
        ensures
            final(self).stepped(
                *old(self),
                *data,
                *data,
                action,
                if copied {
                    EndFrameStep {
                        stage: EndFrameStage::Release { size: old(self).stage->Copy_size },
                        session: data.session(),
                        action: EndFrameActionView::ReleaseImage,
                    }
                } else {
                    frame_fails(data.session(), ERROR_RUNTIME_FAILURE)
                },
            ),
    {
        if !copied {
            return self.fail(ERROR_RUNTIME_FAILURE);
        }
        if let EndFrameStage::Copy { size, .. } = self.stage {
            self.stage = EndFrameStage::Release { size };
        }
        EndFrameAction::ReleaseImage
    }

    /// The last step, after giving the image back.
    pub fn image_released(&mut self, data: &SessionData, released: Result<(), XrErr>) -> (action:
        EndFrameAction)
        requires
            old(self).fits(*data),
            old(self).stage is Release,
        ensures
            final(self).stepped(
                *old(self),
                *data,
                *data,
                action,
                end_frame_released(
                    data.session()->Some_0,
                    old(self).info@,
                    old(self).stage->Release_size,
                    released,
                ),
            ),
    {
        if let Err(e) = released {
            return self.fail(e.code);
        }
        if let EndFrameStage::Release { size } = self.stage {
            let frame = self.info.with_camera(camera_layer(size));
            return self.forward(frame);
        }
        self.fail(ERROR_RUNTIME_FAILURE)
    }
}

/// What the runtime and the driver answer while a frame is being ended.
#[derive(Debug, Clone, Copy)]
pub struct EndFrameReplies {
    /// Whether the camera could be set up.
    pub camera: Result<(), XrErr>,
    /// The passthrough object that the application's layer names.
    pub object: Result<u64, XrErr>,
    /// Where the eyes will be.
    pub views: Result<LocatedViews, XrErr>,
    /// Whether the camera image could be copied.
    pub copied: bool,
    /// Whether the image could be given back.
    pub released: Result<(), XrErr>,
}

/// The image that is ready to be drawn to.
pub open spec fn image_at_hand(state: SessionState) -> Option<u32> {
    match state {
        SessionState::Running { image_index, .. } => image_index,
        SessionState::Idle { .. } => None,
    }
}

/// Whether the end of a frame comes to copying the camera image: the frame is to
/// show the surroundings, with no object but the session's own, an image is at
/// hand, and the eyes are located.
pub open spec fn asks_for_copy(
    session: Option<SessionState>,
    info: FrameEndInfoView,
    fresh: u64,
    replies: EndFrameReplies,
) -> bool {
    let count = passthrough_count(info.layers);
    &&& session is Some
    &&& count == 1 || count == 0 && info.environment_blend_mode == ALPHA_BLEND
    &&& attach_result(session->Some_0, fresh, replies.camera).1 matches Ok(attached) && (count == 1
        ==> replies.object == Ok::<u64, XrErr>(attached))
    &&& image_at_hand(session->Some_0) is Some
    &&& replies.views matches Ok(located) && located.position_valid && located.orientation_valid
}

/// How the end of a frame comes out: the session after it, and the frame that
/// goes to the runtime or the error that goes to the application.
pub open spec fn end_frame_result(
    session: Option<SessionState>,
    info: FrameEndInfoView,
    fresh: u64,
    replies: EndFrameReplies,
) -> (Option<SessionState>, Result<FrameView, XrErr>) {
    let count = passthrough_count(info.layers);
    match session {
        None => (session, Ok(plain_frame(info))),
        Some(before) => if count > 1 {
            (session, Err(XrErr { code: ERROR_VALIDATION_FAILURE }))
        } else if count == 0 && info.environment_blend_mode != ALPHA_BLEND {
            (session, Ok(plain_frame(info)))
        } else {
            let (state, attached) = attach_result(before, fresh, replies.camera);
            if attached is Err {
                (Some(state), Err(attached->Err_0))
            } else if count == 1 && replies.object is Err {
                (Some(state), Err(replies.object->Err_0))
            } else if count == 1 && replies.object->Ok_0 != attached->Ok_0 {
                (Some(state), Err(XrErr { code: ERROR_VALIDATION_FAILURE }))
            } else {
                match state {
                    SessionState::Idle { .. } => (
                        Some(state),
                        Err(XrErr { code: ERROR_SESSION_NOT_RUNNING }),
                    ),
                    SessionState::Running { view_type, passthrough, size, image_index } => match replies.views {
                        Err(e) => (Some(state), Err(e)),
                        Ok(located) => if !located.position_valid || !located.orientation_valid
                            || image_index is None {
                            (Some(state), Ok(stripped_frame(info)))
                        } else {
                            (
                                Some(
                                    SessionState::Running {
                                        view_type,
                                        passthrough,
                                        size,
                                        image_index: None,
                                    },
                                ),
                                if !replies.copied {
                                    Err(XrErr { code: ERROR_RUNTIME_FAILURE })
                                } else if replies.released is Err {
                                    Err(replies.released->Err_0)
                                } else {
                                    Ok(camera_frame(info, camera_layer_for(size)))
                                },
                            )
                        },
                    },
                }
            }
        },
    }
}

/// There is a passthrough layer exactly where one is counted, and the first one
/// is where it is found.
pub proof fn lemma_passthrough_place(layers: Seq<Option<Layer>>)
    ensures
        passthrough_place(layers) <= layers.len(),
        passthrough_place(layers) < layers.len() <==> passthrough_count(layers) > 0,
        passthrough_place(layers) < layers.len() ==> is_passthrough(
            layers[passthrough_place(layers) as int],
        ),
    decreases layers.len(),
{
    if layers.len() > 0 {
        let rest = layers.skip(1);
        lemma_passthrough_place(rest);
        lemma_count_from_front(layers);
    }
}

proof fn lemma_count_from_front(layers: Seq<Option<Layer>>)
    requires
        layers.len() > 0,
    ensures
        passthrough_count(layers) == passthrough_count(layers.skip(1)) + (if is_passthrough(
            layers[0],
        ) {
            1nat
        } else {
            0nat
        }),
    decreases layers.len(),
{
    if layers.len() == 1 {
        assert(layers.drop_last() =~= Seq::empty());
        assert(layers.skip(1) =~= Seq::empty());
    } else {
        lemma_count_from_front(layers.drop_last());
        assert(layers.drop_last().skip(1) =~= layers.skip(1).drop_last());
    }
}

/// The outcome of ending a frame.
#[derive(Debug)]
pub struct EndFrameOutcome {
    /// The frame for the runtime, or the error for the application.
    pub result: Result<Frame, XrErr>,
}

impl EndFrameOutcome {
    /// What the outcome says.
    pub open spec fn said(self) -> Result<FrameView, XrErr> {
        match self.result {
            Ok(frame) => Ok(frame@),
            Err(e) => Err(e),
        }
    }
}

/// The outcome that an action stands for, if it is a last one.
pub open spec fn last_outcome(action: EndFrameActionView) -> Option<Result<FrameView, XrErr>> {
    match action {
        EndFrameActionView::Forward { frame } => Some(Ok(frame)),
        EndFrameActionView::Fail { error } => Some(Err(error)),
        _ => None,
    }
}

fn outcome_of(action: EndFrameAction) -> (outcome: Option<EndFrameOutcome>)
    ensures
        outcome is Some <==> last_outcome(action@) is Some,
        outcome matches Some(o) ==> last_outcome(action@) == Some(o.said()),
{
    match action {
        EndFrameAction::Forward { frame } => Some(EndFrameOutcome { result: Ok(frame) }),
        EndFrameAction::Fail { error } => Some(EndFrameOutcome { result: Err(error) }),
        _ => None,
    }
}

impl SessionData {
    /// Ends a frame, given all that the runtime and the driver answer. The frame
    /// of the outcome is handed to the runtime.
    pub fn end_frame(&mut self, info: FrameEndInfo, fresh: u64, replies: EndFrameReplies) -> (outcome:
        EndFrameOutcome)
        requires
            old(self).valid(),
            info@.layers.len() <= u32::MAX,
            old(self).inner is Some ==> fits_runtime(info@),
            asks_for_copy(old(self).session(), info@, fresh, replies) && replies.copied
                ==> replies.views->Ok_0.count == 2,
        ensures
            final(self).valid(),
            (final(self).session(), outcome.said()) == end_frame_result(
                old(self).session(),
                info@,
                fresh,
                replies,
            ),
            final(self).inner matches Some(inner) ==> inner.system_id
                == old(self).inner->Some_0.system_id,
    {
        proof {
            lemma_passthrough_place(info@.layers);
        }
        let (mut frame, mut action) = EndFrame::start(self, info, fresh);
        if let EndFrameAction::CreateCamera { .. } = action {
            action = frame.camera_ready(self, replies.camera);
        }
        if let EndFrameAction::ResolvePassthrough { .. } = action {
            action = frame.object_resolved(self, replies.object);
        }
        if let EndFrameAction::LocateViews { .. } = action {
            action = frame.views_located(self, replies.views);
        }
        if let EndFrameAction::CopyCamera { .. } = action {
            action = frame.camera_copied(self, replies.copied);
        }
        if let EndFrameAction::ReleaseImage = action {
            action = frame.image_released(self, replies.released);
        }
        match outcome_of(action) {
            Some(outcome) => outcome,
            None => EndFrameOutcome { result: Err(XrErr { code: ERROR_RUNTIME_FAILURE }) },
        }
    }
}

} // verus!
