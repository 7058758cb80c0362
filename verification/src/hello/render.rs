//! One frame of the application in the headset, from its start to what is handed
//! to the runtime.
use crate::api_layer::end_frame::LocatedViews;
use crate::api_layer::frame::{Rect, OPAQUE};
use crate::vulkan::UVec2;
use crate::xr::XrErr;
use vstd::prelude::*;

verus! {

/// The part of a swapchain that one eye sees.
#[derive(Debug, Eq, PartialEq, Clone, Copy, Structural)]
pub struct EyeImage {
    /// The view, among the located ones, from which the eye sees it.
    pub view: usize,
    pub array_index: u32,
    pub rect: Rect,
}

/// The scene as both eyes see it.
#[derive(Debug, Eq, PartialEq, Clone, Copy, Structural)]
pub struct Projection {
    /// Whether the scene covers what is behind it only as far as its own opacity
    /// says.
    pub blend_texture_source_alpha: bool,
    pub left: EyeImage,
    pub right: EyeImage,
    /// Whether the depth of the same parts is handed over too.
    pub depth: bool,
}

/// The layers of a frame.
#[derive(Debug, Eq, PartialEq, Clone, Copy, Structural)]
pub enum SubmittedLayers {
    Empty,
    Scene(Projection),
    /// The surroundings, by the passthrough object, and the scene over them.
    SceneOverSurroundings { passthrough: u64, scene: Projection },
}

/// A frame for the runtime.
#[derive(Debug, Eq, PartialEq, Clone, Copy, Structural)]
pub struct Submission {
    pub display_time: i64,
    pub blend_mode: i32,
    pub layers: SubmittedLayers,
}

/// Why a frame could not be drawn.
#[derive(Debug, Eq, PartialEq, Clone, Copy, Structural)]
pub enum RenderError {
    /// An answer of the runtime.
    Xr(XrErr),
    /// There are not exactly two views.
    UnexpectedViews,
    /// The graphics device failed.
    Drawing,
}

/// What a frame waits for.
#[derive(Debug, Eq, PartialEq, Clone, Copy, Structural)]
pub enum RenderStage {
    Begin,
    Locate,
    Acquire,
    Wait(u32),
    AcquireDepth(u32),
    WaitDepth(u32),
    Draw,
    Release,
    ReleaseDepth,
    Submit,
    Finished,
}

/// What is to be done next.
#[derive(Debug, Eq, PartialEq, Clone, Copy)]
pub enum RenderAction {
    BeginFrame,
    LocateViews { display_time: i64 },
    AcquireImage,
    WaitImage,
    AcquireDepthImage,
    WaitDepthImage,
    /// Draw with the commands for this image.
    Draw { image_index: u32 },
    ReleaseImage,
    ReleaseDepthImage,
    EndFrame(Submission),
    Return(Result<(), RenderError>),
}

/// How that went.
#[derive(Debug, Eq, PartialEq, Clone, Copy)]
pub enum RenderReply {
    Done(Result<(), XrErr>),
    Located(LocatedViews),
    Acquired(Result<u32, XrErr>),
    Drawn(bool),
}

/// A frame that is being drawn.
#[derive(Debug, Eq, PartialEq, Clone, Copy, Structural)]
pub struct FrameRender {
    pub display_time: i64,
    /// Whether there is a swapchain for depth.
    pub has_depth: bool,
    /// The passthrough object, if there is one.
    pub passthrough: Option<u64>,
    /// Size of the image for one eye.
    pub render_size: UVec2,
    pub stage: RenderStage,
}

/// What one eye sees, from the view of the same number, in an image of its own.
pub open spec fn eye_image_for(array_index: u32, size: UVec2) -> EyeImage {
    EyeImage {
        view: array_index as usize,
        array_index,
        rect: Rect { x: 0, y: 0, width: size.x as i32, height: size.y as i32 },
    }
}

/// A frame that shows nothing.
pub open spec fn empty_submission(display_time: i64) -> Submission {
    Submission { display_time, blend_mode: OPAQUE, layers: SubmittedLayers::Empty }
}

/// A frame that shows the scene, over the surroundings if they can be shown.
pub open spec fn scene_submission(render: FrameRender) -> Submission {
    let scene = Projection {
        blend_texture_source_alpha: true,
        left: eye_image_for(0, render.render_size),
        right: eye_image_for(1, render.render_size),
        depth: render.has_depth,
    };
    Submission {
        display_time: render.display_time,
        blend_mode: OPAQUE,
        layers: match render.passthrough {
            Some(passthrough) => SubmittedLayers::SceneOverSurroundings { passthrough, scene },
            None => SubmittedLayers::Scene(scene),
        },
    }
}

/// Where the frame leads when the runtime answers with an error.
pub open spec fn render_failed(e: XrErr) -> (RenderStage, RenderAction) {
    (RenderStage::Finished, RenderAction::Return(Err(RenderError::Xr(e))))
}

/// One step of a frame: what is waited for next, and what is to be done.
pub open spec fn render_step(render: FrameRender, reply: RenderReply) -> (
    RenderStage,
    RenderAction,
) {
    match (render.stage, reply) {
        (RenderStage::Submit, RenderReply::Done(Ok(_))) => (
            RenderStage::Finished,
            RenderAction::Return(Ok(())),
        ),
        (_, RenderReply::Done(Err(e))) => render_failed(e),
        (_, RenderReply::Acquired(Err(e))) => render_failed(e),
        (RenderStage::Begin, RenderReply::Done(Ok(_))) => (
            RenderStage::Locate,
            RenderAction::LocateViews { display_time: render.display_time },
        ),
        (RenderStage::Locate, RenderReply::Located(views)) => if !views.position_valid
            || !views.orientation_valid {
            (RenderStage::Submit, RenderAction::EndFrame(empty_submission(render.display_time)))
        } else if views.count != 2 {
            (RenderStage::Finished, RenderAction::Return(Err(RenderError::UnexpectedViews)))
        } else {
            (RenderStage::Acquire, RenderAction::AcquireImage)
        },
        (RenderStage::Acquire, RenderReply::Acquired(Ok(i))) => (
            RenderStage::Wait(i),
            RenderAction::WaitImage,
        ),
        (RenderStage::Wait(i), RenderReply::Done(Ok(_))) => if render.has_depth {
            (RenderStage::AcquireDepth(i), RenderAction::AcquireDepthImage)
        } else {
            (RenderStage::Draw, RenderAction::Draw { image_index: i })
        },
        (RenderStage::AcquireDepth(i), RenderReply::Acquired(Ok(_))) => (
            RenderStage::WaitDepth(i),
            RenderAction::WaitDepthImage,
        ),
        (RenderStage::WaitDepth(i), RenderReply::Done(Ok(_))) => (
            RenderStage::Draw,
            RenderAction::Draw { image_index: i },
        ),
        (RenderStage::Draw, RenderReply::Drawn(drawn)) => if drawn {
            (RenderStage::Release, RenderAction::ReleaseImage)
        } else {
            (RenderStage::Finished, RenderAction::Return(Err(RenderError::Drawing)))
        },
        (RenderStage::Release, RenderReply::Done(Ok(_))) => if render.has_depth {
            (RenderStage::ReleaseDepth, RenderAction::ReleaseDepthImage)
        } else {
            (RenderStage::Submit, RenderAction::EndFrame(scene_submission(render)))
        },
        (RenderStage::ReleaseDepth, RenderReply::Done(Ok(_))) => (
            RenderStage::Submit,
            RenderAction::EndFrame(scene_submission(render)),
        ),
        _ => (RenderStage::Finished, RenderAction::Return(Err(RenderError::Drawing))),
    }
}

impl FrameRender {
    /// Whether this is a reply to what is waited for. Waiting for an image must
    /// not fail, and both swapchains have to be at the same image.
    pub open spec fn fits(self, reply: RenderReply) -> bool {
        match self.stage {
            RenderStage::Begin => reply is Done,
            RenderStage::Locate => reply is Located,
            RenderStage::Acquire => reply is Acquired,
            RenderStage::Wait(_) => reply matches RenderReply::Done(Ok(_)),
            RenderStage::AcquireDepth(i) => match reply {
                RenderReply::Acquired(Ok(j)) => i == j,
                RenderReply::Acquired(Err(_)) => true,
                _ => false,
            },
            RenderStage::WaitDepth(_) => reply is Done,
            RenderStage::Draw => reply is Drawn,
            RenderStage::Release => reply is Done,
            RenderStage::ReleaseDepth => reply is Done,
            RenderStage::Submit => reply is Done,
            RenderStage::Finished => false,
        }
    }

    /// Starts a frame.
    pub fn start(
        display_time: i64,
        has_depth: bool,
        passthrough: Option<u64>,
        render_size: UVec2,
    ) -> (started: (Self, RenderAction))
        ensures
            started.0 == (FrameRender {
                display_time,
                has_depth,
                passthrough,
                render_size,
                stage: RenderStage::Begin,
            }),
            started.1 == RenderAction::BeginFrame,
    {
        let stage = RenderStage::Begin;
        (
            FrameRender { display_time, has_depth, passthrough, render_size, stage },
            RenderAction::BeginFrame,
        )
    }

    fn eye_image(&self, array_index: u32) -> (image: EyeImage)
        ensures
            image == eye_image_for(array_index, self.render_size),
    {
        let width: i32 = self.render_size.x as i32;
        let height: i32 = self.render_size.y as i32;
        EyeImage {
            view: array_index as usize,
            array_index,
            rect: Rect { x: 0, y: 0, width, height },
        }
    }

    fn scene(&self) -> (submission: Submission)
        ensures
            submission == scene_submission(*self),
    {
        let scene = Projection {
            blend_texture_source_alpha: true,
            left: self.eye_image(0),
            right: self.eye_image(1),
            depth: self.has_depth,
        };
        let layers = match self.passthrough {
            Some(passthrough) => SubmittedLayers::SceneOverSurroundings { passthrough, scene },
            None => SubmittedLayers::Scene(scene),
        };
        Submission { display_time: self.display_time, blend_mode: OPAQUE, layers }
    }

    fn after_success(&self) -> (next: (RenderStage, RenderAction))
        requires
            self.fits(RenderReply::Done(Ok(()))),
        ensures
            next == render_step(*self, RenderReply::Done(Ok(()))),
    {
        match self.stage {
            RenderStage::Begin => (
                RenderStage::Locate,
                RenderAction::LocateViews { display_time: self.display_time },
            ),
            RenderStage::Wait(i) => if self.has_depth {
                (RenderStage::AcquireDepth(i), RenderAction::AcquireDepthImage)
            } else {
                (RenderStage::Draw, RenderAction::Draw { image_index: i })
            },
            RenderStage::WaitDepth(i) => (
                RenderStage::Draw,
                RenderAction::Draw { image_index: i },
            ),
            RenderStage::Release => if self.has_depth {
                (RenderStage::ReleaseDepth, RenderAction::ReleaseDepthImage)
            } else {
                (RenderStage::Submit, RenderAction::EndFrame(self.scene()))
            },
            RenderStage::ReleaseDepth => (
                RenderStage::Submit,
                RenderAction::EndFrame(self.scene()),
            ),
            _ => (RenderStage::Finished, RenderAction::Return(Ok(()))),
        }
    }

    fn after_views(&self, views: LocatedViews) -> (next: (RenderStage, RenderAction))
        requires
            self.fits(RenderReply::Located(views)),
        ensures
            next == render_step(*self, RenderReply::Located(views)),
    {
        if !views.position_valid || !views.orientation_valid {
            (RenderStage::Submit, RenderAction::EndFrame(Submission::empty(self.display_time)))
        } else if views.count != 2 {
            (RenderStage::Finished, RenderAction::Return(Err(RenderError::UnexpectedViews)))
        } else {
            (RenderStage::Acquire, RenderAction::AcquireImage)
        }
    }

    fn after_image(&self, index: u32) -> (next: (RenderStage, RenderAction))
        requires
            self.fits(RenderReply::Acquired(Ok(index))),
        ensures
            next == render_step(*self, RenderReply::Acquired(Ok(index))),
    {
        match self.stage {
            RenderStage::AcquireDepth(i) => (
                RenderStage::WaitDepth(i),
                RenderAction::WaitDepthImage,
            ),
            _ => (RenderStage::Wait(index), RenderAction::WaitImage),
        }
    }

    /// Takes the reply to what was to be done, and says what is to be done next.
    pub fn step(&mut self, reply: RenderReply) -> (action: RenderAction)
        requires
            old(self).fits(reply),
        ensures
            *final(self) == (FrameRender { stage: render_step(*old(self), reply).0, ..*old(self) }),
            action == render_step(*old(self), reply).1,
    {
        let next = match reply {
            RenderReply::Done(Ok(_)) => self.after_success(),
            RenderReply::Done(Err(e)) => (
                RenderStage::Finished,
                RenderAction::Return(Err(RenderError::Xr(e))),
            ),
            RenderReply::Located(views) => self.after_views(views),
            RenderReply::Acquired(Ok(index)) => self.after_image(index),
            RenderReply::Acquired(Err(e)) => (
                RenderStage::Finished,
                RenderAction::Return(Err(RenderError::Xr(e))),
            ),
            RenderReply::Drawn(drawn) => if drawn {
                (RenderStage::Release, RenderAction::ReleaseImage)
            } else {
                (RenderStage::Finished, RenderAction::Return(Err(RenderError::Drawing)))
            },
        };
        self.stage = next.0;
        next.1
    }
}

impl Submission {
    /// A frame that shows nothing.
    pub fn empty(display_time: i64) -> (submission: Self)
        ensures
            submission == empty_submission(display_time),
    {
        Submission { display_time, blend_mode: OPAQUE, layers: SubmittedLayers::Empty }
    }
}

/// All that is replied while a frame is drawn.
#[derive(Debug, Eq, PartialEq, Clone, Copy)]
pub struct RenderReplies {
    pub begun: Result<(), XrErr>,
    pub views: LocatedViews,
    pub acquired: Result<u32, XrErr>,
    pub depth_acquired: Result<u32, XrErr>,
    pub depth_waited: Result<(), XrErr>,
    pub drawn: bool,
    pub released: Result<(), XrErr>,
    pub depth_released: Result<(), XrErr>,
    pub ended: Result<(), XrErr>,
}

/// What comes of a frame.
#[derive(Debug, Eq, PartialEq, Clone, Copy)]
pub struct RenderOutcome {
    /// What is handed to the runtime.
    pub submission: Option<Submission>,
    pub result: Result<(), RenderError>,
}

/// Nothing is handed to the runtime.
pub open spec fn nothing_submitted(e: RenderError) -> RenderOutcome {
    RenderOutcome { submission: None, result: Err(e) }
}

/// The frame is handed to the runtime.
pub open spec fn submitted(submission: Submission, ended: Result<(), XrErr>) -> RenderOutcome {
    RenderOutcome {
        submission: Some(submission),
        result: match ended {
            Ok(_) => Ok(()),
            Err(e) => Err(RenderError::Xr(e)),
        },
    }
}

/// What comes of a frame, in the order in which things are done.
pub open spec fn render_result(render: FrameRender, replies: RenderReplies) -> RenderOutcome {
    if let Err(e) = replies.begun {
        nothing_submitted(RenderError::Xr(e))
    } else if !replies.views.position_valid || !replies.views.orientation_valid {
        submitted(empty_submission(render.display_time), replies.ended)
    } else if replies.views.count != 2 {
        nothing_submitted(RenderError::UnexpectedViews)
    } else if let Err(e) = replies.acquired {
        nothing_submitted(RenderError::Xr(e))
    } else if render.has_depth && replies.depth_acquired is Err {
        nothing_submitted(RenderError::Xr(replies.depth_acquired->Err_0))
    } else if render.has_depth && replies.depth_waited is Err {
        nothing_submitted(RenderError::Xr(replies.depth_waited->Err_0))
    } else if !replies.drawn {
        nothing_submitted(RenderError::Drawing)
    } else if let Err(e) = replies.released {
        nothing_submitted(RenderError::Xr(e))
    } else if render.has_depth && replies.depth_released is Err {
        nothing_submitted(RenderError::Xr(replies.depth_released->Err_0))
    } else {
        submitted(scene_submission(render), replies.ended)
    }
}

impl RenderReplies {
    /// The swapchains are at the same image.
    pub open spec fn in_step(self) -> bool {
        match (self.acquired, self.depth_acquired) {
            (Ok(i), Ok(j)) => i == j,
            _ => true,
        }
    }

    /// The reply to what is to be done. Waiting for an image does not fail.
    fn reply(&self, action: RenderAction) -> (reply: RenderReply)
        requires
            !(action is Return),
        ensures
            reply == (match action {
                RenderAction::BeginFrame => RenderReply::Done(self.begun),
                RenderAction::LocateViews { .. } => RenderReply::Located(self.views),
                RenderAction::AcquireImage => RenderReply::Acquired(self.acquired),
                RenderAction::AcquireDepthImage => RenderReply::Acquired(self.depth_acquired),
                RenderAction::WaitDepthImage => RenderReply::Done(self.depth_waited),
                RenderAction::Draw { .. } => RenderReply::Drawn(self.drawn),
                RenderAction::ReleaseImage => RenderReply::Done(self.released),
                RenderAction::ReleaseDepthImage => RenderReply::Done(self.depth_released),
                RenderAction::EndFrame(_) => RenderReply::Done(self.ended),
                _ => RenderReply::Done(Ok(())),
            }),
    {
        match action {
            RenderAction::BeginFrame => RenderReply::Done(self.begun),
            RenderAction::LocateViews { .. } => RenderReply::Located(self.views),
            RenderAction::AcquireImage => RenderReply::Acquired(self.acquired),
            RenderAction::AcquireDepthImage => RenderReply::Acquired(self.depth_acquired),
            RenderAction::WaitDepthImage => RenderReply::Done(self.depth_waited),
            RenderAction::Draw { .. } => RenderReply::Drawn(self.drawn),
            RenderAction::ReleaseImage => RenderReply::Done(self.released),
            RenderAction::ReleaseDepthImage => RenderReply::Done(self.depth_released),
            RenderAction::EndFrame(_) => RenderReply::Done(self.ended),
            _ => RenderReply::Done(Ok(())),
        }
    }
}

/// Where a frame stands, given all that is replied: at `stage`, with `action` to
/// be done next, after `submission` was handed to the runtime.
spec fn on_course(
    render: FrameRender,
    replies: RenderReplies,
    action: RenderAction,
    submission: Option<Submission>,
) -> bool {
    let located = replies.begun is Ok;
    let seen = located && replies.views.position_valid && replies.views.orientation_valid
        && replies.views.count == 2;
    let has_image = |i: u32| seen && replies.acquired == Ok::<u32, XrErr>(i);
    let ready = seen && replies.acquired is Ok && (render.has_depth ==> replies.depth_acquired is Ok
        && replies.depth_waited is Ok);
    match render.stage {
        RenderStage::Begin => action == RenderAction::BeginFrame && submission is None,
        RenderStage::Locate => located && submission is None && action
            == RenderAction::LocateViews { display_time: render.display_time },
        RenderStage::Acquire => seen && submission is None && action == RenderAction::AcquireImage,
        RenderStage::Wait(i) => has_image(i) && submission is None && action
            == RenderAction::WaitImage,
        RenderStage::AcquireDepth(i) => has_image(i) && render.has_depth && submission is None
            && action == RenderAction::AcquireDepthImage,
        RenderStage::WaitDepth(i) => has_image(i) && render.has_depth && replies.depth_acquired is Ok
            && submission is None && action == RenderAction::WaitDepthImage,
        RenderStage::Draw => ready && submission is None && action is Draw,
        RenderStage::Release => ready && replies.drawn && submission is None && action
            == RenderAction::ReleaseImage,
        RenderStage::ReleaseDepth => ready && replies.drawn && replies.released is Ok
            && render.has_depth && submission is None && action == RenderAction::ReleaseDepthImage,
        RenderStage::Submit => action matches RenderAction::EndFrame(s) && submission is None
            && render_result(render, replies) == submitted(s, replies.ended),
        RenderStage::Finished => action matches RenderAction::Return(result) && render_result(
            render,
            replies,
        ) == (RenderOutcome { submission, result }),
    }
}

/// How many steps may follow at most.
spec fn steps_left(stage: RenderStage) -> nat {
    match stage {
        RenderStage::Begin => 10,
        RenderStage::Locate => 9,
        RenderStage::Acquire => 8,
        RenderStage::Wait(_) => 7,
        RenderStage::AcquireDepth(_) => 6,
        RenderStage::WaitDepth(_) => 5,
        RenderStage::Draw => 4,
        RenderStage::Release => 3,
        RenderStage::ReleaseDepth => 2,
        RenderStage::Submit => 1,
        RenderStage::Finished => 0,
    }
}

/// Draws a frame and hands it to the runtime, given all that is replied.
pub fn render_and_submit(
    display_time: i64,
    has_depth: bool,
    passthrough: Option<u64>,
    render_size: UVec2,
    replies: &RenderReplies,
) -> (outcome: RenderOutcome)
    requires
        has_depth ==> replies.in_step(),
    ensures
        outcome == render_result(
            (FrameRender {
                display_time,
                has_depth,
                passthrough,
                render_size,
                stage: RenderStage::Begin,
            }),
            *replies,
        ),
{
    let (mut render, mut action) = FrameRender::start(
        display_time,
        has_depth,
        passthrough,
        render_size,
    );
    let ghost start = render;
    let mut submission: Option<Submission> = None;
    loop
        invariant
            has_depth ==> replies.in_step(),
            start == (FrameRender {
                display_time,
                has_depth,
                passthrough,
                render_size,
                stage: RenderStage::Begin,
            }),
            render == (FrameRender { stage: render.stage, ..start }),
            on_course(render, *replies, action, submission),
            render_result(render, *replies) == render_result(start, *replies),
        decreases steps_left(render.stage),
    {
        if let RenderAction::Return(result) = action {
            return RenderOutcome { submission, result };
        }
        if let RenderAction::EndFrame(s) = action {
            submission = Some(s);
        }
        let reply = replies.reply(action);
        action = render.step(reply);
    }
}

/// Something is shown only where the runtime knows where both eyes are; where it
/// does not, the frame is handed over empty.
pub proof fn nothing_is_shown_without_a_pose(render: FrameRender, replies: RenderReplies)
    ensures
        render_result(render, replies).submission matches Some(s) ==> {
            &&& s.display_time == render.display_time
            &&& s.blend_mode == OPAQUE
            &&& s.layers == SubmittedLayers::Empty <==> !(replies.views.position_valid
                && replies.views.orientation_valid)
        },
{
}

/// An image is drawn to, and given back, before it is shown.
pub proof fn shown_images_are_drawn_and_released(render: FrameRender, replies: RenderReplies)
    ensures
        render_result(render, replies).submission == Some(scene_submission(render)) ==> {
            &&& replies.acquired is Ok
            &&& replies.drawn
            &&& replies.released is Ok
            &&& render.has_depth ==> replies.depth_acquired is Ok && replies.depth_released is Ok
        },
{
}

/// A frame that is submitted where the runtime knows where both eyes are shows the
/// scene, over the surroundings of the passthrough object exactly where there is
/// one. Depth is handed over exactly where there is a swapchain for it. The left eye
/// sees the first image from the first view and the right eye the second image from
/// the second view, each of them whole.
pub proof fn scene_is_shown_over_the_surroundings_of_the_object(
    render: FrameRender,
    replies: RenderReplies,
)
    requires
        render.render_size.x <= i32::MAX,
        render.render_size.y <= i32::MAX,
        replies.views.position_valid,
        replies.views.orientation_valid,
    ensures
        render_result(render, replies).submission matches Some(s) ==> {
            let scene = match s.layers {
                SubmittedLayers::Scene(scene) => scene,
                SubmittedLayers::SceneOverSurroundings { scene, .. } => scene,
                SubmittedLayers::Empty => arbitrary(),
            };
            &&& s.display_time == render.display_time
            &&& s.blend_mode == 1
            &&& !(s.layers is Empty)
            &&& render.passthrough == (match s.layers {
                SubmittedLayers::SceneOverSurroundings { passthrough, .. } => Some(passthrough),
                _ => None,
            })
            &&& scene.blend_texture_source_alpha
            &&& scene.depth == render.has_depth
            &&& scene.left.view == 0 && scene.left.array_index == 0
            &&& scene.right.view == 1 && scene.right.array_index == 1
            &&& scene.left.rect == scene.right.rect
            &&& scene.left.rect.x == 0 && scene.left.rect.y == 0
            &&& scene.left.rect.width == render.render_size.x
            &&& scene.left.rect.height == render.render_size.y
        },
{
}

/// A frame is submitted where nothing fails before that, and the result is then how
/// that went. Without a swapchain for depth nothing that concerns it matters.
pub proof fn frames_are_submitted_where_nothing_fails(
    render: FrameRender,
    replies: RenderReplies,
    other: RenderReplies,
)
    ensures
        ({
            let outcome = render_result(render, replies);
            let located = replies.views.position_valid && replies.views.orientation_valid;
            &&& outcome.submission is Some <==> replies.begun is Ok && (located ==> {
                &&& replies.views.count == 2 && replies.acquired is Ok
                &&& replies.drawn && replies.released is Ok
                &&& render.has_depth ==> replies.depth_acquired is Ok && replies.depth_waited is Ok
                    && replies.depth_released is Ok
            })
            &&& outcome.submission is Some ==> outcome.result == (match replies.ended {
                Ok(_) => Ok::<(), RenderError>(()),
                Err(e) => Err(RenderError::Xr(e)),
            })
            &&& outcome.submission is None ==> outcome.result is Err
            &&& !render.has_depth ==> render_result(
                render,
                RenderReplies {
                    depth_acquired: other.depth_acquired,
                    depth_waited: other.depth_waited,
                    depth_released: other.depth_released,
                    ..replies
                },
            ) == outcome
        }),
{
}

/// What is answered where no frame is submitted: the runtime's own error, or that
/// there are not two views, or that drawing failed, whichever comes first.
pub proof fn first_failure_of_a_frame_is_its_result(render: FrameRender, replies: RenderReplies)
    requires
        replies.views.position_valid,
        replies.views.orientation_valid,
    ensures
        ({
            let result = render_result(render, replies).result;
            let seen = replies.begun is Ok && replies.views.count == 2;
            let ready = seen && replies.acquired is Ok && (render.has_depth
                ==> replies.depth_acquired is Ok && replies.depth_waited is Ok);
            &&& replies.begun matches Err(e) ==> result == Err::<(), RenderError>(
                RenderError::Xr(e),
            )
            &&& replies.begun is Ok && replies.views.count != 2 ==> result == Err::<
                (),
                RenderError,
            >(RenderError::UnexpectedViews)
            &&& seen ==> (replies.acquired matches Err(e) ==> result == Err::<(), RenderError>(
                RenderError::Xr(e),
            ))
            &&& seen && replies.acquired is Ok && render.has_depth ==> (
            replies.depth_acquired matches Err(e) ==> result == Err::<(), RenderError>(
                RenderError::Xr(e),
            ))
            &&& seen && replies.acquired is Ok && render.has_depth && replies.depth_acquired is Ok
                ==> (replies.depth_waited matches Err(e) ==> result == Err::<(), RenderError>(
                RenderError::Xr(e),
            ))
            &&& ready && !replies.drawn ==> result == Err::<(), RenderError>(RenderError::Drawing)
            &&& ready && replies.drawn ==> (replies.released matches Err(e) ==> result == Err::<
                (),
                RenderError,
            >(RenderError::Xr(e)))
            &&& ready && replies.drawn && replies.released is Ok && render.has_depth ==> (
            replies.depth_released matches Err(e) ==> result == Err::<(), RenderError>(
                RenderError::Xr(e),
            ))
        }),
{
}

/// The image that is drawn to is the one that was acquired and waited for, whether
/// or not there is one for depth as well. The views are located for the time at
/// which the frame is shown.
pub proof fn acquired_image_is_drawn_to(render: FrameRender, image: u32)
    ensures
        ({
            let begun = FrameRender { stage: RenderStage::Begin, ..render };
            let acquire = FrameRender { stage: RenderStage::Acquire, ..render };
            let (waiting, action) = render_step(acquire, RenderReply::Acquired(Ok(image)));
            let wait = FrameRender { stage: waiting, ..render };
            let (drawing, draw) = render_step(wait, RenderReply::Done(Ok(())));
            let acquire_depth = FrameRender { stage: drawing, ..render };
            let (depth, wait_depth) = render_step(acquire_depth, RenderReply::Acquired(Ok(image)));
            let depth_waited = FrameRender { stage: depth, ..render };
            &&& render_step(begun, RenderReply::Done(Ok(()))).1 == (RenderAction::LocateViews {
                display_time: render.display_time,
            })
            &&& action == RenderAction::WaitImage
            &&& !render.has_depth ==> draw == (RenderAction::Draw { image_index: image })
            &&& render.has_depth ==> {
                &&& draw == RenderAction::AcquireDepthImage
                &&& wait_depth == RenderAction::WaitDepthImage
                &&& render_step(depth_waited, RenderReply::Done(Ok(()))).1 == (RenderAction::Draw {
                    image_index: image,
                })
            }
        }),
{
}

/// An empty frame has its time, is opaque, and shows nothing.
pub proof fn empty_frames_show_nothing(display_time: i64)
    ensures
        empty_submission(display_time).display_time == display_time,
        empty_submission(display_time).blend_mode == 1,
        empty_submission(display_time).layers == SubmittedLayers::Empty,
{
}

} // verus!
