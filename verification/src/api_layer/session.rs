//! The life of a session: created, begun, ended, and what is attached to it.
use crate::vulkan::{all_formats_known, select_format, Format, ImagePlan, ImageUsage, UVec2};
use crate::xr::{XrErr, ERROR_RUNTIME_FAILURE, ERROR_SESSION_RUNNING};
use vstd::prelude::*;

verus! {

use crate::vulkan::{first_supported, formats_are_known};

/// What a wrapped session is doing.
///
/// A passthrough object is known by a number that no other passthrough object
/// has.
#[derive(Debug, Clone, Copy)]
pub enum SessionState {
    Idle {
        /// The passthrough object that is attached to the session.
        passthrough: Option<u64>,
    },
    Running {
        /// The view configuration that the session was begun with.
        view_type: i32,
        /// The passthrough object that is attached to the session. While the
        /// session runs, there is a camera with it.
        passthrough: Option<u64>,
        /// Size of the image for one eye.
        size: UVec2,
        /// The image of our own swapchain that is ready to be drawn to.
        image_index: Option<u32>,
    },
}

impl SessionState {
    /// The passthrough object that is attached.
    pub open spec fn attached(self) -> Option<u64> {
        match self {
            SessionState::Idle { passthrough } => passthrough,
            SessionState::Running { passthrough, .. } => passthrough,
        }
    }

    /// The same state, with `id` attached.
    pub open spec fn attach(self, id: u64) -> SessionState {
        match self {
            SessionState::Idle { .. } => SessionState::Idle { passthrough: Some(id) },
            SessionState::Running { view_type, size, image_index, .. } => SessionState::Running {
                view_type,
                passthrough: Some(id),
                size,
                image_index,
            },
        }
    }

    /// Whether the state can arise: both eyes side by side are no wider than an
    /// image can be.
    pub open spec fn valid(self) -> bool {
        self matches SessionState::Running { size, .. } ==> size.x * 2 <= u32::MAX
    }

    /// The state after ending the session.
    pub open spec fn ended(self) -> SessionState {
        SessionState::Idle { passthrough: self.attached() }
    }
}

/// A session that this layer wraps.
#[derive(Debug, Clone, Copy)]
pub struct SessionDataInner {
    pub state: SessionState,
    /// The system that the session was created for.
    pub system_id: u64,
}

/// What the layer keeps for a session. A session that it cannot handle is left
/// alone: there is nothing inside.
#[derive(Debug, Clone, Copy)]
pub struct SessionData {
    pub inner: Option<SessionDataInner>,
}

impl SessionData {
    /// The state of the session, if the layer wraps it.
    pub open spec fn session(self) -> Option<SessionState> {
        match self.inner {
            Some(inner) => Some(inner.state),
            None => None,
        }
    }

    /// Whether the state of the session can arise.
    pub open spec fn valid(self) -> bool {
        self.inner matches Some(inner) ==> inner.state.valid()
    }
}

impl Default for SessionData {
    fn default() -> (data: Self)
        ensures
            data.inner is None,
    {
        SessionData { inner: None }
    }
}

/// The image size that the runtime recommends for one view.
#[derive(Debug, Eq, PartialEq, Clone, Copy, Structural)]
pub struct ViewConfig {
    pub width: u32,
    pub height: u32,
    pub sample_count: u32,
}

/// The larger one of two numbers.
pub open spec fn larger(a: u32, b: u32) -> u32 {
    if a < b {
        b
    } else {
        a
    }
}

pub fn max_u32(a: u32, b: u32) -> (m: u32)
    ensures
        m == larger(a, b),
{
    if a < b {
        b
    } else {
        a
    }
}

/// A swapchain to create.
#[derive(Debug, Eq, PartialEq, Clone, Copy, Structural)]
pub struct SwapchainPlan {
    pub array_size: u32,
    pub face_count: u32,
    pub mip_count: u32,
    pub format: Format,
    pub sample_count: u32,
    pub width: u32,
    pub height: u32,
    pub usage: ImageUsage,
}

/// The color formats that a swapchain is created with, the best one first.
pub open spec fn preferred_color_formats() -> Seq<Format> {
    seq![
        Format::R8G8B8A8Unorm,
        Format::B8G8R8A8Unorm,
        Format::R8G8B8A8Srgb,
        Format::B8G8R8A8Srgb,
    ]
}

/// The color format is the first one that the runtime supports of the numbers 37, 44,
/// 43 and 50, as Vulkan counts them.
pub proof fn color_format_goes_by_number(supported: Seq<u32>)
    ensures
        ({
            let format = first_supported(preferred_color_formats(), supported);
            &&& supported.contains(37) <==> format == Some(Format::R8G8B8A8Unorm)
            &&& !supported.contains(37) && supported.contains(44) <==> format == Some(
                Format::B8G8R8A8Unorm,
            )
            &&& !supported.contains(37) && !supported.contains(44) && supported.contains(43)
                <==> format == Some(Format::R8G8B8A8Srgb)
            &&& !supported.contains(37) && !supported.contains(44) && !supported.contains(43)
                && supported.contains(50) <==> format == Some(Format::B8G8R8A8Srgb)
            &&& !supported.contains(37) && !supported.contains(44) && !supported.contains(43)
                && !supported.contains(50) <==> format is None
        }),
{
    reveal_with_fuel(first_supported, 6);
}

/// The color format for a swapchain, out of those that the runtime supports.
pub fn choose_color_format(supported: &[u32]) -> (format: Option<Format>)
    ensures
        format == first_supported(preferred_color_formats(), supported@),
{
    let preferred: [Format; 4] = [
        Format::R8G8B8A8Unorm,
        Format::B8G8R8A8Unorm,
        Format::R8G8B8A8Srgb,
        Format::B8G8R8A8Srgb,
    ];
    assert(preferred@ =~= preferred_color_formats());
    select_format(preferred.as_slice(), supported)
}

/// The usage of a color image that is drawn to or copied to.
pub open spec fn target_usage() -> ImageUsage {
    ImageUsage { color_attachment: true, transfer_dst: true, ..ImageUsage::spec_none() }
}

/// The image size for one eye: the larger one of what the first two views ask
/// for, in each direction.
pub open spec fn eye_size(views: Seq<ViewConfig>) -> UVec2 {
    UVec2 {
        x: larger(views[0].width, views[1].width),
        y: larger(views[0].height, views[1].height),
    }
}

/// The swapchain that camera images are shown through: both eyes side by side
/// in one image.
pub open spec fn camera_swapchain(size: UVec2, sample_count: u32, format: Format) -> SwapchainPlan {
    SwapchainPlan {
        array_size: 1,
        face_count: 1,
        mip_count: 1,
        format,
        sample_count,
        width: (size.x * 2) as u32,
        height: size.y,
        usage: target_usage(),
    }
}

/// An image of that swapchain.
pub open spec fn camera_swapchain_image(size: UVec2, format: Format) -> ImagePlan {
    ImagePlan {
        format,
        width: (size.x * 2) as u32,
        height: size.y,
        array_layers: 1,
        usage: target_usage(),
    }
}

/// What the runtime and the graphics driver say while a session is begun.
#[derive(Debug)]
pub struct BeginReplies {
    /// The view configuration's views.
    pub views: Result<Vec<ViewConfig>, XrErr>,
    /// Whether the camera could be set up. Asked for only if a passthrough
    /// object is attached.
    pub camera: Result<(), XrErr>,
    /// Numbers of the swapchain formats that are supported.
    pub formats: Result<Vec<u32>, XrErr>,
    /// Whether the swapchain could be created.
    pub swapchain: Result<(), XrErr>,
    /// Whether its images could be had and wrapped.
    pub images: Result<(), XrErr>,
}

/// Whether the layer can go on with a list of views: there are two at least,
/// and both eyes side by side are no wider than an image can be.
pub open spec fn usable_views(views: Seq<ViewConfig>) -> bool {
    views.len() >= 2 && eye_size(views).x * 2 <= u32::MAX
}

/// How beginning a session comes out, in the order in which the questions are
/// asked: the first failure is the answer, and leaves the session as it was.
pub open spec fn begin_result(
    state: SessionState,
    view_type: i32,
    replies: BeginReplies,
) -> Result<SessionState, XrErr> {
    match state {
        SessionState::Running { .. } => Err(XrErr { code: ERROR_SESSION_RUNNING }),
        SessionState::Idle { passthrough } => match replies.views {
            Err(e) => Err(e),
            Ok(views) => if passthrough is Some && replies.camera is Err {
                Err(replies.camera->Err_0)
            } else {
                match replies.formats {
                    Err(e) => Err(e),
                    Ok(formats) => if !formats_are_known(formats@) || first_supported(
                        preferred_color_formats(),
                        formats@,
                    ) is None {
                        Err(XrErr { code: ERROR_RUNTIME_FAILURE })
                    } else if replies.swapchain is Err {
                        Err(replies.swapchain->Err_0)
                    } else if replies.images is Err {
                        Err(replies.images->Err_0)
                    } else {
                        Ok(
                            SessionState::Running {
                                view_type,
                                passthrough,
                                size: eye_size(views@),
                                image_index: None,
                            },
                        )
                    },
                }
            },
        },
    }
}

/// How far beginning a session has come: what it waits for.
#[derive(Debug, Clone, Copy)]
pub enum BeginStage {
    Views,
    Camera { size: UVec2, sample_count: u32 },
    Formats { size: UVec2, sample_count: u32 },
    Swapchain { size: UVec2, format: Format },
    Images { size: UVec2 },
    Finished,
}

/// What is to be done next.
#[derive(Debug, Clone, Copy)]
pub enum BeginAction {
    /// Ask the runtime for the view configuration's views.
    EnumerateViews,
    /// Set the camera up for eyes of this size.
    CreateCamera { size: UVec2 },
    /// Ask the runtime for the supported swapchain formats.
    EnumerateFormats,
    /// Create this swapchain.
    CreateSwapchain { plan: SwapchainPlan },
    /// Wrap the swapchain's images as this.
    WrapImages { image: ImagePlan },
    /// Done.
    Return { result: Result<(), XrErr> },
}

/// A session that is being begun.
#[derive(Debug, Clone, Copy)]
pub struct Begin {
    pub view_type: i32,
    pub stage: BeginStage,
}

/// Ends beginning a session with a failure.
pub open spec fn begin_fails(code: XrErr) -> (BeginStage, BeginAction) {
    (BeginStage::Finished, BeginAction::Return { result: Err(code) })
}

/// The first step of beginning a session.
pub open spec fn begin_first(state: SessionState) -> (BeginStage, BeginAction) {
    match state {
        SessionState::Running { .. } => begin_fails(XrErr { code: ERROR_SESSION_RUNNING }),
        SessionState::Idle { .. } => (BeginStage::Views, BeginAction::EnumerateViews),
    }
}

/// The step after the views are known.
pub open spec fn begin_after_views(
    state: SessionState,
    views: Result<Seq<ViewConfig>, XrErr>,
) -> (BeginStage, BeginAction) {
    match views {
        Err(e) => begin_fails(e),
        Ok(views) => {
            let size = eye_size(views);
            let sample_count = views[0].sample_count;
            if state.attached() is Some {
                (BeginStage::Camera { size, sample_count }, BeginAction::CreateCamera { size })
            } else {
                (BeginStage::Formats { size, sample_count }, BeginAction::EnumerateFormats)
            }
        },
    }
}

/// The step after the camera was set up.
pub open spec fn begin_after_camera(
    size: UVec2,
    sample_count: u32,
    camera: Result<(), XrErr>,
) -> (BeginStage, BeginAction) {
    match camera {
        Ok(()) => (BeginStage::Formats { size, sample_count }, BeginAction::EnumerateFormats),
        Err(e) => begin_fails(e),
    }
}

/// The step after the swapchain was created.
pub open spec fn begin_after_swapchain(
    size: UVec2,
    format: Format,
    swapchain: Result<(), XrErr>,
) -> (BeginStage, BeginAction) {
    match swapchain {
        Ok(()) => (
            BeginStage::Images { size },
            BeginAction::WrapImages { image: camera_swapchain_image(size, format) },
        ),
        Err(e) => begin_fails(e),
    }
}

/// The step after the formats are known.
pub open spec fn begin_after_formats(
    size: UVec2,
    sample_count: u32,
    formats: Result<Seq<u32>, XrErr>,
) -> (BeginStage, BeginAction) {
    match formats {
        Err(e) => begin_fails(e),
        Ok(codes) => match first_supported(preferred_color_formats(), codes) {
            Some(format) if formats_are_known(codes) => (
                BeginStage::Swapchain { size, format },
                BeginAction::CreateSwapchain { plan: camera_swapchain(size, sample_count, format) },
            ),
            _ => begin_fails(XrErr { code: ERROR_RUNTIME_FAILURE }),
        },
    }
}

/// The views of a reply.
pub open spec fn views_of(reply: Result<Vec<ViewConfig>, XrErr>) -> Result<
    Seq<ViewConfig>,
    XrErr,
> {
    match reply {
        Ok(views) => Ok(views@),
        Err(e) => Err(e),
    }
}

/// The format numbers of a reply.
pub open spec fn formats_of(reply: Result<Vec<u32>, XrErr>) -> Result<Seq<u32>, XrErr> {
    match reply {
        Ok(formats) => Ok(formats@),
        Err(e) => Err(e),
    }
}

impl Begin {
    fn fail(&mut self, error: XrErr) -> (action: BeginAction)
        ensures
            final(self).view_type == old(self).view_type,
            (final(self).stage, action) == begin_fails(error),
    {
        self.stage = BeginStage::Finished;
        BeginAction::Return { result: Err(error) }
    }

    /// Starts to begin the session `data` with the view configuration
    /// `view_type`. A running session cannot be begun.
    pub fn start(data: &SessionDataInner, view_type: i32) -> (started: (Begin, BeginAction))
        ensures
            started.0.view_type == view_type,
            (started.0.stage, started.1) == begin_first(data.state),
    {
        match data.state {
            SessionState::Running { .. } => (
                Begin { view_type, stage: BeginStage::Finished },
                BeginAction::Return { result: Err(XrErr { code: ERROR_SESSION_RUNNING }) },
            ),
            SessionState::Idle { .. } => (
                Begin { view_type, stage: BeginStage::Views },
                BeginAction::EnumerateViews,
            ),
        }
    }

    /// Goes on with the views. The camera is set up next if a passthrough
    /// object is attached to the session.
    pub fn views_known(
        &mut self,
        data: &SessionDataInner,
        views: Result<Vec<ViewConfig>, XrErr>,
    ) -> (action: BeginAction)
        requires
            old(self).stage is Views,
            views matches Ok(v) ==> usable_views(v@),
        ensures
            final(self).view_type == old(self).view_type,
            (final(self).stage, action) == begin_after_views(data.state, views_of(views)),
    {
        let views = match views {
            Ok(views) => views,
            Err(e) => return self.fail(e),
        };
        let size = UVec2::new(
            max_u32(views[0].width, views[1].width),
            max_u32(views[0].height, views[1].height),
        );
        let sample_count: u32 = views[0].sample_count;
        let attached = match data.state {
            SessionState::Idle { passthrough } => passthrough.is_some(),
            SessionState::Running { passthrough, .. } => passthrough.is_some(),
        };
        if attached {
            self.stage = BeginStage::Camera { size, sample_count };
            BeginAction::CreateCamera { size }
        } else {
            self.stage = BeginStage::Formats { size, sample_count };
            BeginAction::EnumerateFormats
        }
    }

    /// Goes on after setting the camera up.
    pub fn camera_ready(&mut self, camera: Result<(), XrErr>) -> (action: BeginAction)
        requires
            old(self).stage is Camera,
        ensures
            final(self).view_type == old(self).view_type,
            old(self).stage matches BeginStage::Camera { size, sample_count } ==> (
                final(self).stage,
                action,
            ) == begin_after_camera(size, sample_count, camera),
    {
        if let Err(e) = camera {
            return self.fail(e);
        }
        if let BeginStage::Camera { size, sample_count } = self.stage {
            self.stage = BeginStage::Formats { size, sample_count };
        }
        BeginAction::EnumerateFormats
    }

    /// Goes on with the formats. Every one of them has to be a format at all,
    /// and one of the preferred ones has to be among them.
    pub fn formats_known(&mut self, formats: Result<Vec<u32>, XrErr>) -> (action: BeginAction)
        requires
            old(self).stage matches BeginStage::Formats { size, .. } && size.x * 2 <= u32::MAX,
        ensures
            final(self).view_type == old(self).view_type,
            old(self).stage matches BeginStage::Formats { size, sample_count } ==> (
                final(self).stage,
                action,
            ) == begin_after_formats(size, sample_count, formats_of(formats)),
    {
        let formats = match formats {
            Ok(formats) => formats,
            Err(e) => return self.fail(e),
        };
        if !all_formats_known(formats.as_slice()) {
            return self.fail(XrErr { code: ERROR_RUNTIME_FAILURE });
        }
        let format = match choose_color_format(formats.as_slice()) {
            Some(format) => format,
            None => return self.fail(XrErr { code: ERROR_RUNTIME_FAILURE }),
        };
        if let BeginStage::Formats { size, sample_count } = self.stage {
            self.stage = BeginStage::Swapchain { size, format };
            let mut usage = ImageUsage::none();
            usage.color_attachment = true;
            usage.transfer_dst = true;
            let plan = SwapchainPlan {
                array_size: 1,
                face_count: 1,
                mip_count: 1,
                format,
                sample_count,
                width: size.x * 2,
                height: size.y,
                usage,
            };
            BeginAction::CreateSwapchain { plan }
        } else {
            BeginAction::EnumerateFormats
        }
    }

    /// Goes on after creating the swapchain.
    pub fn swapchain_created(&mut self, swapchain: Result<(), XrErr>) -> (action: BeginAction)
        requires
            old(self).stage matches BeginStage::Swapchain { size, .. } && size.x * 2 <= u32::MAX,
        ensures
            final(self).view_type == old(self).view_type,
            old(self).stage matches BeginStage::Swapchain { size, format } ==> (
                final(self).stage,
                action,
            ) == begin_after_swapchain(size, format, swapchain),
    {
        if let Err(e) = swapchain {
            return self.fail(e);
        }
        if let BeginStage::Swapchain { size, format } = self.stage {
            self.stage = BeginStage::Images { size };
            let mut usage = ImageUsage::none();
            usage.color_attachment = true;
            usage.transfer_dst = true;
            let image = ImagePlan {
                format,
                width: size.x * 2,
                height: size.y,
                array_layers: 1,
                usage,
            };
            BeginAction::WrapImages { image }
        } else {
            BeginAction::EnumerateFormats
        }
    }

    /// The last step: the session runs, with the passthrough object that it had,
    /// and no image is ready yet.
    pub fn images_wrapped(
        &mut self,
        data: &mut SessionDataInner,
        images: Result<(), XrErr>,
    ) -> (action: BeginAction)
        requires
            old(self).stage matches BeginStage::Images { size } && size.x * 2 <= u32::MAX,
            old(data).state.valid(),
        ensures
            final(self).view_type == old(self).view_type,
            final(self).stage is Finished,
            action == (BeginAction::Return { result: images }),
            final(data).system_id == old(data).system_id,
            final(data).state.valid(),
            old(self).stage matches BeginStage::Images { size } ==> final(data).state == (
            match images {
                Ok(()) => SessionState::Running {
                    view_type: old(self).view_type,
                    passthrough: old(data).state.attached(),
                    size,
                    image_index: None,
                },
                Err(_) => old(data).state,
            }),
    {
        if let Err(e) = images {
            return self.fail(e);
        }
        if let BeginStage::Images { size } = self.stage {
            let passthrough = match data.state {
                SessionState::Idle { passthrough } => passthrough,
                SessionState::Running { passthrough, .. } => passthrough,
            };
            data.state = SessionState::Running {
                view_type: self.view_type,
                passthrough,
                size,
                image_index: None,
            };
        }
        self.stage = BeginStage::Finished;
        BeginAction::Return { result: images }
    }
}

impl SessionDataInner {
    /// Whether the session is running.
    pub fn is_running(&self) -> (yes: bool)
        ensures
            yes == self.state is Running,
    {
        match self.state {
            SessionState::Running { .. } => true,
            SessionState::Idle { .. } => false,
        }
    }

    /// Begins the session, given all that the runtime and the driver answer.
    pub fn begin(&mut self, view_type: i32, replies: BeginReplies) -> (result: Result<(), XrErr>)
        requires
            old(self).state.valid(),
            old(self).state is Idle ==> (replies.views matches Ok(v) ==> usable_views(v@)),
        ensures
            final(self).system_id == old(self).system_id,
            final(self).state.valid(),
            match begin_result(old(self).state, view_type, replies) {
                Ok(state) => result is Ok && final(self).state == state,
                Err(e) => result == Err::<(), XrErr>(e) && final(self).state == old(self).state,
            },
    {
        let (mut begin, action) = Begin::start(self, view_type);
        if let BeginAction::Return { result } = action {
            return result;
        }
        let action = begin.views_known(self, replies.views);
        if let BeginAction::Return { result } = action {
            return result;
        }
        if let BeginAction::CreateCamera { .. } = action {
            let action = begin.camera_ready(replies.camera);
            if let BeginAction::Return { result } = action {
                return result;
            }
        }
        let action = begin.formats_known(replies.formats);
        if let BeginAction::Return { result } = action {
            return result;
        }
        let action = begin.swapchain_created(replies.swapchain);
        if let BeginAction::Return { result } = action {
            return result;
        }
        let action = begin.images_wrapped(self, replies.images);
        match action {
            BeginAction::Return { result } => result,
            _ => Ok(()),
        }
    }

    /// Ends the session. Its passthrough object stays attached.
    pub fn end(&mut self)
        requires
            old(self).state is Running,
        ensures
            final(self).system_id == old(self).system_id,
            final(self).state == old(self).state.ended(),
            final(self).state.valid(),
    {
        let passthrough = match self.state {
            SessionState::Idle { passthrough } => passthrough,
            SessionState::Running { passthrough, .. } => passthrough,
        };
        self.state = SessionState::Idle { passthrough };
    }

    /// Whether a camera has to be set up before a passthrough object can be
    /// attached, and for which eye size: in a running session that has none
    /// attached.
    pub fn passthrough_needs_camera(&self) -> (size: Option<UVec2>)
        ensures
            size == (match self.state {
                SessionState::Running { passthrough: None, size, .. } => Some(size),
                _ => None,
            }),
    {
        match self.state {
            SessionState::Running { passthrough, size, .. } => {
                if passthrough.is_none() {
                    Some(size)
                } else {
                    None
                }
            },
            SessionState::Idle { .. } => None,
        }
    }

    /// The passthrough object that is attached to the session. If there is
    /// none, `fresh` is attached; in a running session that takes a camera, and
    /// `camera` says whether it could be set up.
    pub fn get_or_add_passthrough(&mut self, fresh: u64, camera: Result<(), XrErr>) -> (result:
        Result<u64, XrErr>)
        requires
            old(self).state.valid(),
        ensures
            final(self).system_id == old(self).system_id,
            final(self).state.valid(),
            (final(self).state, result) == attach_result(old(self).state, fresh, camera),
    {
        match self.state {
            SessionState::Idle { passthrough } => match passthrough {
                Some(id) => Ok(id),
                None => {
                    self.state = SessionState::Idle { passthrough: Some(fresh) };
                    Ok(fresh)
                },
            },
            SessionState::Running { view_type, passthrough, size, image_index } => match passthrough {
                Some(id) => Ok(id),
                None => match camera {
                    Err(e) => Err(e),
                    Ok(()) => {
                        self.state =
                        SessionState::Running {
                            view_type,
                            passthrough: Some(fresh),
                            size,
                            image_index,
                        };
                        Ok(fresh)
                    },
                },
            },
        }
    }
}

/// What comes of asking for a session's passthrough object: the state after it
/// and the object.
pub open spec fn attach_result(
    state: SessionState,
    fresh: u64,
    camera: Result<(), XrErr>,
) -> (SessionState, Result<u64, XrErr>) {
    match state.attached() {
        Some(id) => (state, Ok(id)),
        None => if state is Running && camera is Err {
            (state, Err(camera->Err_0))
        } else {
            (state.attach(fresh), Ok(fresh))
        },
    }
}

} // verus!
