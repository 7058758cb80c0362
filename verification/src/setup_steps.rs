//! The order in which an application is set up.
use crate::api_layer::session::{SwapchainPlan, ViewConfig};
use crate::setup::{
    DevicePlan, EyeViews, FormatChoice, InstanceExtension, InstancePlan, OpenXr, SetupError,
    XrExtensions,
};
use crate::vulkan::Version;
use crate::xr::XrErr;
use vstd::prelude::*;

verus! {

use crate::setup::{
    all_supported, blend_result, color_swapchain_for, depth_swapchain_for, device_plan_for,
    eyes_result, formats_result, instance_plan_for, instance_version, lists_surface,
    required_extensions, session_result, InstancePlanView, OpenXrView,
};

/// Why the setup failed. `E` is an error of the runtime or the driver.
#[derive(Debug, Eq, PartialEq)]
pub enum SetupFailure<E> {
    /// What the runtime and the driver offer will not do.
    Refused(SetupError),
    /// The runtime or the driver failed.
    Outside(E),
}

/// What the Vulkan instance can be created with.
#[derive(Debug)]
pub struct InstanceOffer {
    /// All instance extensions that there are.
    pub extensions: Vec<InstanceExtension>,
    /// The highest Vulkan version that the runtime takes.
    pub max_major: u32,
    pub max_minor: u32,
    /// The version of the Vulkan library.
    pub library: Version,
}

impl InstanceOffer {
    /// Whether an instance can be planned: the extension for surfaces is in the
    /// list, and a version that is to be handed over can be packed.
    pub open spec fn usable(self) -> bool {
        &&& lists_surface(self.extensions@)
        &&& all_supported(self.extensions@) ==> instance_version(
            self.max_major,
            self.max_minor,
            self.library,
        ).packable()
    }

    /// The instance to create.
    pub open spec fn planned(self) -> Result<InstancePlanView, SetupError> {
        instance_plan_for(self.extensions@, self.max_major, self.max_minor, self.library)
    }
}

/// What the Vulkan device can be created with.
#[derive(Debug)]
pub struct DeviceOffer {
    /// The device's Vulkan version.
    pub version: Version,
    /// The lowest Vulkan version that the runtime takes.
    pub min_major: u32,
    pub min_minor: u32,
    /// Which queue families can draw.
    pub draws: Vec<bool>,
}

impl DeviceOffer {
    /// The device to create.
    pub open spec fn planned(self) -> Result<DevicePlan, SetupError> {
        device_plan_for(self.version, self.min_major, self.min_minor, self.draws@)
    }
}

/// What the swapchains can be created with.
#[derive(Debug)]
pub struct FormatOffer {
    /// The swapchain formats that the runtime supports.
    pub formats: Vec<u32>,
    /// Whether depth can be submitted with a frame.
    pub depth_layers: bool,
}

/// What the runtime and the driver say while an application is set up. `E` is an
/// error of theirs.
#[derive(Debug)]
pub struct SetupReplies<E> {
    /// Whether there is an OpenXR instance and a headset.
    pub system: Result<(), E>,
    /// The blend modes that the runtime supports.
    pub blend_modes: Result<Vec<i32>, E>,
    pub instance_offer: Result<InstanceOffer, E>,
    /// Whether the Vulkan instance could be created.
    pub instance: Result<(), E>,
    pub device_offer: Result<DeviceOffer, E>,
    /// Whether the Vulkan device could be created.
    pub device: Result<(), E>,
    /// The runtime's answer to creating the session.
    pub session: XrErr,
    /// The views for two eyes.
    pub views: Result<Vec<ViewConfig>, E>,
    pub format_offer: Result<FormatOffer, E>,
    /// The number of images of the swapchain, if they could be had and wrapped.
    pub swapchain: Result<usize, E>,
    /// The same of the swapchain for depth.
    pub depth_swapchain: Result<usize, E>,
    /// Whether the reference space could be created.
    pub space: Result<(), E>,
}

/// An outside answer, as a part of the setup.
pub open spec fn outside<T, E>(reply: Result<T, E>) -> Result<T, SetupFailure<E>> {
    match reply {
        Ok(value) => Ok(value),
        Err(e) => Err(SetupFailure::Outside(e)),
    }
}

/// A finding of the library, as a part of the setup.
pub open spec fn found<T, E>(finding: Result<T, SetupError>) -> Result<T, SetupFailure<E>> {
    match finding {
        Ok(value) => Ok(value),
        Err(e) => Err(SetupFailure::Refused(e)),
    }
}

impl<E> SetupReplies<E> {
    /// How the setup comes out up to the blend modes.
    pub open spec fn checked(self) -> Result<(), SetupFailure<E>> {
        match (outside(self.system), outside(self.blend_modes)) {
            (Err(e), _) => Err(e),
            (_, Err(e)) => Err(e),
            (Ok(_), Ok(modes)) => found(blend_result(modes@)),
        }
    }

    /// How the setup comes out up to the Vulkan instance.
    pub open spec fn instance_made(self) -> Result<InstancePlanView, SetupFailure<E>> {
        match (self.checked(), outside(self.instance_offer)) {
            (Err(e), _) => Err(e),
            (_, Err(e)) => Err(e),
            (Ok(_), Ok(offer)) => match (found(offer.planned()), outside(self.instance)) {
                (Err(e), _) => Err(e),
                (_, Err(e)) => Err(e),
                (Ok(plan), Ok(_)) => Ok(plan),
            },
        }
    }

    /// How the setup comes out up to the Vulkan device.
    pub open spec fn device_made(self) -> Result<DevicePlan, SetupFailure<E>> {
        match (self.instance_made(), outside(self.device_offer)) {
            (Err(e), _) => Err(e),
            (_, Err(e)) => Err(e),
            (Ok(_), Ok(offer)) => match (found(offer.planned()), outside(self.device)) {
                (Err(e), _) => Err(e),
                (_, Err(e)) => Err(e),
                (Ok(plan), Ok(_)) => Ok(plan),
            },
        }
    }

    /// How the setup comes out up to the views.
    pub open spec fn eyes_known(self) -> Result<EyeViews, SetupFailure<E>> {
        match (self.device_made(), found(session_result(self.session)), outside(self.views)) {
            (Err(e), _, _) => Err(e),
            (_, Err(e), _) => Err(e),
            (_, _, Err(e)) => Err(e),
            (Ok(_), Ok(_), Ok(views)) => found(eyes_result(views@)),
        }
    }

    /// How the setup comes out up to the formats.
    pub open spec fn formats_chosen(self) -> Result<FormatChoice, SetupFailure<E>> {
        match (self.eyes_known(), outside(self.format_offer)) {
            (Err(e), _) => Err(e),
            (_, Err(e)) => Err(e),
            (Ok(_), Ok(offer)) => found(formats_result(offer.formats@, offer.depth_layers)),
        }
    }

    /// Whether what is answered can be gone on with, as far as it is asked for: an
    /// instance can be planned, and the swapchains have as many images.
    pub open spec fn usable(self) -> bool {
        &&& self.checked() is Ok ==> (self.instance_offer matches Ok(offer) ==> offer.usable())
        &&& self.formats_chosen() matches Ok(formats) ==> (formats.depth is Some ==> (
        self.swapchain matches Ok(images) ==> (self.depth_swapchain matches Ok(depth_images)
            ==> depth_images == images)))
    }
}

/// How the setup comes out, in the order in which things are asked for and
/// checked: the first failure is the answer.
pub open spec fn setup_result<E>(asked: XrExtensions, replies: SetupReplies<E>) -> Result<
    OpenXrView,
    SetupFailure<E>,
> {
    match replies.formats_chosen() {
        Err(e) => Err(e),
        Ok(formats) => {
            let eyes = replies.eyes_known()->Ok_0;
            let depth_swapchain = depth_swapchain_for(eyes, formats);
            if replies.swapchain is Err {
                Err(SetupFailure::Outside(replies.swapchain->Err_0))
            } else if depth_swapchain is Some && replies.depth_swapchain is Err {
                Err(SetupFailure::Outside(replies.depth_swapchain->Err_0))
            } else if replies.space is Err {
                Err(SetupFailure::Outside(replies.space->Err_0))
            } else {
                Ok(
                    OpenXrView {
                        extensions: required_extensions(asked),
                        instance: replies.instance_made()->Ok_0,
                        device: replies.device_made()->Ok_0,
                        swapchain: color_swapchain_for(eyes, formats),
                        depth_swapchain,
                        render_size: eyes.size,
                    },
                )
            }
        },
    }
}

/// What the setup waits for, with what is known by then.
#[derive(Debug, Eq, PartialEq, Clone, Copy, Structural)]
pub enum SetupStage {
    System,
    BlendModes,
    InstanceOffer,
    Instance,
    DeviceOffer,
    Device { device: DevicePlan },
    Session { device: DevicePlan },
    Views { device: DevicePlan },
    Formats { device: DevicePlan, eyes: EyeViews },
    Swapchain { device: DevicePlan, eyes: EyeViews, formats: FormatChoice },
    DepthSwapchain { device: DevicePlan, eyes: EyeViews, formats: FormatChoice, images: usize },
    Space { device: DevicePlan, eyes: EyeViews, formats: FormatChoice },
    Complete { device: DevicePlan, eyes: EyeViews, formats: FormatChoice },
    Failed,
}

/// What is to be done next.
#[derive(Debug, Eq, PartialEq, Clone, Copy, Structural)]
pub enum SetupAction {
    /// Create the OpenXR instance, with these extensions, and look for a headset.
    CreateXrInstance { extensions: XrExtensions },
    /// Ask for the blend modes.
    EnumerateBlendModes,
    /// See what the Vulkan instance can be created with.
    LookInstanceUp,
    /// Create the Vulkan instance, as [`Setup::instance`] says.
    CreateVkInstance,
    /// See what the Vulkan device can be created with.
    LookDeviceUp,
    /// Create this Vulkan device.
    CreateVkDevice { device: DevicePlan },
    CreateSession,
    /// Ask for the views for two eyes.
    EnumerateViews,
    /// Ask for the swapchain formats.
    EnumerateFormats,
    /// Create this swapchain, and wrap its images.
    CreateSwapchain { swapchain: SwapchainPlan },
    /// Create this swapchain for depth, and wrap its images.
    CreateDepthSwapchain { swapchain: SwapchainPlan },
    /// Create the reference space.
    CreateSpace,
    /// The application is set up.
    Finish,
}

/// An application that is being set up.
#[derive(Debug)]
pub struct Setup {
    pub extensions: XrExtensions,
    pub stage: SetupStage,
    /// The Vulkan instance to create, once that is known.
    pub instance: Option<InstancePlan>,
}

/// What a [`Setup`] says.
pub struct SetupView {
    pub extensions: XrExtensions,
    pub stage: SetupStage,
    pub instance: Option<InstancePlanView>,
}

impl View for Setup {
    type V = SetupView;

    open spec fn view(&self) -> SetupView {
        SetupView {
            extensions: self.extensions,
            stage: self.stage,
            instance: match self.instance {
                Some(plan) => Some(plan@),
                None => None,
            },
        }
    }
}

impl SetupView {
    /// Whether the Vulkan instance is known where it has to be.
    pub open spec fn valid(self) -> bool {
        match self.stage {
            SetupStage::System
            | SetupStage::BlendModes
            | SetupStage::InstanceOffer
            | SetupStage::Failed => true,
            _ => self.instance is Some,
        }
    }

    /// A step that leads on to a stage, or fails.
    pub open spec fn steps<E>(
        self,
        step: Result<(SetupStage, SetupAction), SetupFailure<E>>,
    ) -> (SetupView, Result<SetupAction, SetupFailure<E>>) {
        match step {
            Ok((stage, action)) => (SetupView { stage, ..self }, Ok(action)),
            Err(e) => (SetupView { stage: SetupStage::Failed, ..self }, Err(e)),
        }
    }

    /// The step after the OpenXR instance was created.
    pub open spec fn after_system<E>(self, system: Result<(), E>) -> (
        SetupView,
        Result<SetupAction, SetupFailure<E>>,
    ) {
        self.steps(
            match outside(system) {
                Ok(_) => Ok((SetupStage::BlendModes, SetupAction::EnumerateBlendModes)),
                Err(e) => Err(e),
            },
        )
    }

    /// The step after the blend modes are known.
    pub open spec fn after_blend_modes<E>(self, modes: Result<Vec<i32>, E>) -> (
        SetupView,
        Result<SetupAction, SetupFailure<E>>,
    ) {
        self.steps(
            match outside(modes) {
                Err(e) => Err(e),
                Ok(modes) => match found(blend_result(modes@)) {
                    Ok(_) => Ok((SetupStage::InstanceOffer, SetupAction::LookInstanceUp)),
                    Err(e) => Err(e),
                },
            },
        )
    }

    /// The step after it is known what the Vulkan instance can be created with.
    pub open spec fn after_instance_offer<E>(self, offer: Result<InstanceOffer, E>) -> (
        SetupView,
        Result<SetupAction, SetupFailure<E>>,
    ) {
        match outside(offer) {
            Err(e) => self.steps(Err(e)),
            Ok(offer) => match found::<InstancePlanView, E>(offer.planned()) {
                Err(e) => self.steps(Err(e)),
                Ok(plan) => SetupView { instance: Some(plan), ..self }.steps(
                    Ok((SetupStage::Instance, SetupAction::CreateVkInstance)),
                ),
            },
        }
    }

    /// The step after the Vulkan instance was created.
    pub open spec fn after_instance<E>(self, instance: Result<(), E>) -> (
        SetupView,
        Result<SetupAction, SetupFailure<E>>,
    ) {
        self.steps(
            match outside(instance) {
                Ok(_) => Ok((SetupStage::DeviceOffer, SetupAction::LookDeviceUp)),
                Err(e) => Err(e),
            },
        )
    }

    /// The step after it is known what the Vulkan device can be created with.
    pub open spec fn after_device_offer<E>(self, offer: Result<DeviceOffer, E>) -> (
        SetupView,
        Result<SetupAction, SetupFailure<E>>,
    ) {
        self.steps(
            match outside(offer) {
                Err(e) => Err(e),
                Ok(offer) => match found(offer.planned()) {
                    Ok(device) => Ok(
                        (SetupStage::Device { device }, SetupAction::CreateVkDevice { device }),
                    ),
                    Err(e) => Err(e),
                },
            },
        )
    }

    /// The step after the Vulkan device was created.
    pub open spec fn after_device<E>(self, device: DevicePlan, created: Result<(), E>) -> (
        SetupView,
        Result<SetupAction, SetupFailure<E>>,
    ) {
        self.steps(
            match outside(created) {
                Ok(_) => Ok((SetupStage::Session { device }, SetupAction::CreateSession)),
                Err(e) => Err(e),
            },
        )
    }

    /// The step after the session was created.
    pub open spec fn after_session<E>(self, device: DevicePlan, answer: XrErr) -> (
        SetupView,
        Result<SetupAction, SetupFailure<E>>,
    ) {
        self.steps(
            match found(session_result(answer)) {
                Ok(_) => Ok((SetupStage::Views { device }, SetupAction::EnumerateViews)),
                Err(e) => Err(e),
            },
        )
    }

    /// The step after the views are known.
    pub open spec fn after_views<E>(self, device: DevicePlan, views: Result<Vec<ViewConfig>, E>) -> (
        SetupView,
        Result<SetupAction, SetupFailure<E>>,
    ) {
        self.steps(
            match outside(views) {
                Err(e) => Err(e),
                Ok(views) => match found(eyes_result(views@)) {
                    Ok(eyes) => Ok(
                        (SetupStage::Formats { device, eyes }, SetupAction::EnumerateFormats),
                    ),
                    Err(e) => Err(e),
                },
            },
        )
    }

    /// The step after the formats are known.
    pub open spec fn after_formats<E>(
        self,
        device: DevicePlan,
        eyes: EyeViews,
        offer: Result<FormatOffer, E>,
    ) -> (SetupView, Result<SetupAction, SetupFailure<E>>) {
        self.steps(
            match outside(offer) {
                Err(e) => Err(e),
                Ok(offer) => match found(formats_result(offer.formats@, offer.depth_layers)) {
                    Ok(formats) => Ok(
                        (
                            SetupStage::Swapchain { device, eyes, formats },
                            SetupAction::CreateSwapchain {
                                swapchain: color_swapchain_for(eyes, formats),
                            },
                        ),
                    ),
                    Err(e) => Err(e),
                },
            },
        )
    }

    /// The step after the swapchain for color was created.
    pub open spec fn after_swapchain<E>(
        self,
        device: DevicePlan,
        eyes: EyeViews,
        formats: FormatChoice,
        images: Result<usize, E>,
    ) -> (SetupView, Result<SetupAction, SetupFailure<E>>) {
        self.steps(
            match outside(images) {
                Err(e) => Err(e),
                Ok(images) => match depth_swapchain_for(eyes, formats) {
                    Some(swapchain) => Ok(
                        (
                            SetupStage::DepthSwapchain { device, eyes, formats, images },
                            SetupAction::CreateDepthSwapchain { swapchain },
                        ),
                    ),
                    None => Ok(
                        (SetupStage::Space { device, eyes, formats }, SetupAction::CreateSpace),
                    ),
                },
            },
        )
    }

    /// The step after the swapchain for depth was created.
    pub open spec fn after_depth_swapchain<E>(
        self,
        device: DevicePlan,
        eyes: EyeViews,
        formats: FormatChoice,
        images: Result<usize, E>,
    ) -> (SetupView, Result<SetupAction, SetupFailure<E>>) {
        self.steps(
            match outside(images) {
                Ok(_) => Ok(
                    (SetupStage::Space { device, eyes, formats }, SetupAction::CreateSpace),
                ),
                Err(e) => Err(e),
            },
        )
    }

    /// The step after the reference space was created.
    pub open spec fn after_space<E>(
        self,
        device: DevicePlan,
        eyes: EyeViews,
        formats: FormatChoice,
        space: Result<(), E>,
    ) -> (SetupView, Result<SetupAction, SetupFailure<E>>) {
        self.steps(
            match outside(space) {
                Ok(_) => Ok((SetupStage::Complete { device, eyes, formats }, SetupAction::Finish)),
                Err(e) => Err(e),
            },
        )
    }
}

impl Setup {
    fn fail<E>(&mut self, failure: SetupFailure<E>) -> (result: Result<
        SetupAction,
        SetupFailure<E>,
    >)
        ensures
            (final(self)@, result) == old(self)@.steps(
                Err::<(SetupStage, SetupAction), SetupFailure<E>>(failure),
            ),
    {
        self.stage = SetupStage::Failed;
        Err(failure)
    }

    /// Starts to set an application up that asks for the OpenXR extensions
    /// `asked`.
    pub fn start(asked: XrExtensions) -> (started: (Setup, SetupAction))
        ensures
            started.0@ == (SetupView {
                extensions: required_extensions(asked),
                stage: SetupStage::System,
                instance: None,
            }),
            started.1 == (SetupAction::CreateXrInstance {
                extensions: required_extensions(asked),
            }),
    {
        let extensions = asked.with_required();
        (
            Setup { extensions, stage: SetupStage::System, instance: None },
            SetupAction::CreateXrInstance { extensions },
        )
    }

    /// Goes on after creating the OpenXR instance.
    pub fn system_found<E>(&mut self, system: Result<(), E>) -> (result: Result<
        SetupAction,
        SetupFailure<E>,
    >)
        requires
            old(self).stage is System,
        ensures
            (final(self)@, result) == old(self)@.after_system(system),
            final(self)@.valid(),
    {
        if let Err(e) = system {
            return self.fail(SetupFailure::Outside(e));
        }
        self.stage = SetupStage::BlendModes;
        Ok(SetupAction::EnumerateBlendModes)
    }

    /// Goes on with the blend modes.
    pub fn blend_modes_known<E>(&mut self, modes: Result<Vec<i32>, E>) -> (result: Result<
        SetupAction,
        SetupFailure<E>,
    >)
        requires
            old(self).stage is BlendModes,
        ensures
            (final(self)@, result) == old(self)@.after_blend_modes(modes),
            final(self)@.valid(),
    {
        let modes = match modes {
            Ok(modes) => modes,
            Err(e) => return self.fail(SetupFailure::Outside(e)),
        };
        if let Err(e) = OpenXr::check_blend_modes(modes.as_slice()) {
            return self.fail(SetupFailure::Refused(e));
        }
        self.stage = SetupStage::InstanceOffer;
        Ok(SetupAction::LookInstanceUp)
    }

    /// Goes on with what the Vulkan instance can be created with.
    pub fn instance_offered<E>(&mut self, offer: Result<InstanceOffer, E>) -> (result: Result<
        SetupAction,
        SetupFailure<E>,
    >)
        requires
            old(self).stage is InstanceOffer,
            offer matches Ok(offer) ==> offer.usable(),
        ensures
            (final(self)@, result) == old(self)@.after_instance_offer(offer),
            final(self)@.valid(),
    {
        let offer = match offer {
            Ok(offer) => offer,
            Err(e) => return self.fail(SetupFailure::Outside(e)),
        };
        let plan = OpenXr::create_vk_instance(
            offer.extensions.as_slice(),
            offer.max_major,
            offer.max_minor,
            offer.library,
        );
        let plan = match plan {
            Ok(plan) => plan,
            Err(e) => return self.fail(SetupFailure::Refused(e)),
        };
        self.instance = Some(plan);
        self.stage = SetupStage::Instance;
        Ok(SetupAction::CreateVkInstance)
    }

    /// Goes on after creating the Vulkan instance.
    pub fn instance_created<E>(&mut self, instance: Result<(), E>) -> (result: Result<
        SetupAction,
        SetupFailure<E>,
    >)
        requires
            old(self)@.valid(),
            old(self).stage is Instance,
        ensures
            (final(self)@, result) == old(self)@.after_instance(instance),
            final(self)@.valid(),
    {
        if let Err(e) = instance {
            return self.fail(SetupFailure::Outside(e));
        }
        self.stage = SetupStage::DeviceOffer;
        Ok(SetupAction::LookDeviceUp)
    }

    /// Goes on with what the Vulkan device can be created with.
    pub fn device_offered<E>(&mut self, offer: Result<DeviceOffer, E>) -> (result: Result<
        SetupAction,
        SetupFailure<E>,
    >)
        requires
            old(self)@.valid(),
            old(self).stage is DeviceOffer,
        ensures
            (final(self)@, result) == old(self)@.after_device_offer(offer),
            final(self)@.valid(),
    {
        let offer = match offer {
            Ok(offer) => offer,
            Err(e) => return self.fail(SetupFailure::Outside(e)),
        };
        let device = OpenXr::create_vk_device(
            offer.version,
            offer.min_major,
            offer.min_minor,
            offer.draws.as_slice(),
        );
        let device = match device {
            Ok(device) => device,
            Err(e) => return self.fail(SetupFailure::Refused(e)),
        };
        self.stage = SetupStage::Device { device };
        Ok(SetupAction::CreateVkDevice { device })
    }

    /// Goes on after creating the Vulkan device.
    pub fn device_created<E>(&mut self, created: Result<(), E>) -> (result: Result<
        SetupAction,
        SetupFailure<E>,
    >)
        requires
            old(self)@.valid(),
            old(self).stage is Device,
        ensures
            old(self).stage matches SetupStage::Device { device } ==> (final(self)@, result)
                == old(self)@.after_device(device, created),
            final(self)@.valid(),
    {
        if let Err(e) = created {
            return self.fail(SetupFailure::Outside(e));
        }
        if let SetupStage::Device { device } = self.stage {
            self.stage = SetupStage::Session { device };
        }
        Ok(SetupAction::CreateSession)
    }

    /// Goes on with the runtime's answer to creating the session.
    pub fn session_created<E>(&mut self, answer: XrErr) -> (result: Result<
        SetupAction,
        SetupFailure<E>,
    >)
        requires
            old(self)@.valid(),
            old(self).stage is Session,
        ensures
            old(self).stage matches SetupStage::Session { device } ==> (final(self)@, result)
                == old(self)@.after_session::<E>(device, answer),
            final(self)@.valid(),
    {
        if let Err(e) = OpenXr::check_session(answer) {
            return self.fail(SetupFailure::Refused(e));
        }
        if let SetupStage::Session { device } = self.stage {
            self.stage = SetupStage::Views { device };
        }
        Ok(SetupAction::EnumerateViews)
    }

    /// Goes on with the views.
    pub fn views_known<E>(&mut self, views: Result<Vec<ViewConfig>, E>) -> (result: Result<
        SetupAction,
        SetupFailure<E>,
    >)
        requires
            old(self)@.valid(),
            old(self).stage is Views,
        ensures
            old(self).stage matches SetupStage::Views { device } ==> (final(self)@, result)
                == old(self)@.after_views(device, views),
            final(self)@.valid(),
    {
        let views = match views {
            Ok(views) => views,
            Err(e) => return self.fail(SetupFailure::Outside(e)),
        };
        let eyes = match OpenXr::eye_views(views.as_slice()) {
            Ok(eyes) => eyes,
            Err(e) => return self.fail(SetupFailure::Refused(e)),
        };
        if let SetupStage::Views { device } = self.stage {
            self.stage = SetupStage::Formats { device, eyes };
        }
        Ok(SetupAction::EnumerateFormats)
    }

    /// Goes on with the formats.
    pub fn formats_known<E>(&mut self, offer: Result<FormatOffer, E>) -> (result: Result<
        SetupAction,
        SetupFailure<E>,
    >)
        requires
            old(self)@.valid(),
            old(self).stage is Formats,
        ensures
            old(self).stage matches SetupStage::Formats { device, eyes } ==> (final(self)@, result)
                == old(self)@.after_formats(device, eyes, offer),
            final(self)@.valid(),
    {
        let offer = match offer {
            Ok(offer) => offer,
            Err(e) => return self.fail(SetupFailure::Outside(e)),
        };
        let formats = match OpenXr::choose_formats(offer.formats.as_slice(), offer.depth_layers) {
            Ok(formats) => formats,
            Err(e) => return self.fail(SetupFailure::Refused(e)),
        };
        if let SetupStage::Formats { device, eyes } = self.stage {
            self.stage = SetupStage::Swapchain { device, eyes, formats };
            let swapchain = OpenXr::color_swapchain(eyes, formats);
            return Ok(SetupAction::CreateSwapchain { swapchain });
        }
        Ok(SetupAction::Finish)
    }

    /// Goes on after creating the swapchain for color, with the number of its
    /// images.
    pub fn swapchain_created<E>(&mut self, images: Result<usize, E>) -> (result: Result<
        SetupAction,
        SetupFailure<E>,
    >)
        requires
            old(self)@.valid(),
            old(self).stage is Swapchain,
        ensures
            old(self).stage matches SetupStage::Swapchain { device, eyes, formats } ==> (
                final(self)@,
                result,
            ) == old(self)@.after_swapchain(device, eyes, formats, images),
            final(self)@.valid(),
    {
        let images: usize = match images {
            Ok(images) => images,
            Err(e) => return self.fail(SetupFailure::Outside(e)),
        };
        if let SetupStage::Swapchain { device, eyes, formats } = self.stage {
            if let Some(swapchain) = OpenXr::depth_swapchain(eyes, formats) {
                self.stage = SetupStage::DepthSwapchain { device, eyes, formats, images };
                return Ok(SetupAction::CreateDepthSwapchain { swapchain });
            }
            self.stage = SetupStage::Space { device, eyes, formats };
        }
        Ok(SetupAction::CreateSpace)
    }

    /// Goes on after creating the swapchain for depth, which has as many images as
    /// the one for color.
    pub fn depth_swapchain_created<E>(&mut self, images: Result<usize, E>) -> (result: Result<
        SetupAction,
        SetupFailure<E>,
    >)
        requires
            old(self)@.valid(),
            old(self).stage is DepthSwapchain,
            images matches Ok(images) ==> images == old(self).stage->images,
        ensures
            old(self).stage matches SetupStage::DepthSwapchain { device, eyes, formats, .. } ==> (
                final(self)@,
                result,
            ) == old(self)@.after_depth_swapchain(device, eyes, formats, images),
            final(self)@.valid(),
    {
        if let Err(e) = images {
            return self.fail(SetupFailure::Outside(e));
        }
        if let SetupStage::DepthSwapchain { device, eyes, formats, .. } = self.stage {
            self.stage = SetupStage::Space { device, eyes, formats };
        }
        Ok(SetupAction::CreateSpace)
    }

    /// Goes on after creating the reference space.
    pub fn space_created<E>(&mut self, space: Result<(), E>) -> (result: Result<
        SetupAction,
        SetupFailure<E>,
    >)
        requires
            old(self)@.valid(),
            old(self).stage is Space,
        ensures
            old(self).stage matches SetupStage::Space { device, eyes, formats } ==> (
                final(self)@,
                result,
            ) == old(self)@.after_space(device, eyes, formats, space),
            final(self)@.valid(),
    {
        if let Err(e) = space {
            return self.fail(SetupFailure::Outside(e));
        }
        if let SetupStage::Space { device, eyes, formats } = self.stage {
            self.stage = SetupStage::Complete { device, eyes, formats };
        }
        Ok(SetupAction::Finish)
    }

    /// The application that was set up.
    pub fn finish(self) -> (xr: OpenXr)
        requires
            self@.valid(),
            self.stage is Complete,
        ensures
            self.stage matches SetupStage::Complete { device, eyes, formats } ==> xr@ == (
            OpenXrView {
                extensions: self.extensions,
                instance: self@.instance->Some_0,
                device,
                swapchain: color_swapchain_for(eyes, formats),
                depth_swapchain: depth_swapchain_for(eyes, formats),
                render_size: eyes.size,
            }),
    {
        let extensions = self.extensions;
        let stage = self.stage;
        let instance = self.instance.unwrap();
        match stage {
            SetupStage::Complete { device, eyes, formats } => OpenXr {
                extensions,
                instance,
                device,
                swapchain: OpenXr::color_swapchain(eyes, formats),
                depth_swapchain: OpenXr::depth_swapchain(eyes, formats),
                render_size: eyes.size,
            },
            _ => vstd::pervasive::unreached(),
        }
    }
}

impl OpenXr {
    /// Sets an application up that asks for the OpenXR extensions `asked`, given
    /// all that the runtime and the driver say.
    pub fn new<E>(asked: XrExtensions, replies: SetupReplies<E>) -> (xr: Result<
        Self,
        SetupFailure<E>,
    >)
        requires
            replies.usable(),
        ensures
            match setup_result(asked, replies) {
                Ok(view) => xr is Ok && xr->Ok_0@ == view,
                Err(e) => xr == Err::<Self, SetupFailure<E>>(e),
            },
    {
        let (mut setup, _) = Setup::start(asked);
        if let Err(e) = setup.system_found(replies.system) {
            return Err(e);
        }
        if let Err(e) = setup.blend_modes_known(replies.blend_modes) {
            return Err(e);
        }
        if let Err(e) = setup.instance_offered(replies.instance_offer) {
            return Err(e);
        }
        if let Err(e) = setup.instance_created(replies.instance) {
            return Err(e);
        }
        if let Err(e) = setup.device_offered(replies.device_offer) {
            return Err(e);
        }
        if let Err(e) = setup.device_created(replies.device) {
            return Err(e);
        }
        if let Err(e) = setup.session_created::<E>(replies.session) {
            return Err(e);
        }
        if let Err(e) = setup.views_known(replies.views) {
            return Err(e);
        }
        if let Err(e) = setup.formats_known(replies.format_offer) {
            return Err(e);
        }
        match setup.swapchain_created(replies.swapchain) {
            Err(e) => return Err(e),
            Ok(SetupAction::CreateDepthSwapchain { .. }) => {
                if let Err(e) = setup.depth_swapchain_created(replies.depth_swapchain) {
                    return Err(e);
                }
            },
            Ok(_) => {},
        }
        if let Err(e) = setup.space_created(replies.space) {
            return Err(e);
        }
        Ok(setup.finish())
    }
}

/// An application is set up exactly where nothing that is asked for fails and
/// everything that is offered will do. It is then set up with the instance and the
/// device that follow from what was offered.
pub proof fn setup_succeeds_where_nothing_is_wrong<E>(
    asked: XrExtensions,
    replies: SetupReplies<E>,
)
    ensures
        setup_result(asked, replies) is Ok <==> {
            &&& replies.system is Ok
            &&& replies.blend_modes matches Ok(modes) && blend_result(modes@) is Ok
            &&& replies.instance_offer matches Ok(offer) && offer.planned() is Ok
            &&& replies.instance is Ok
            &&& replies.device_offer matches Ok(offer) && offer.planned() is Ok
            &&& replies.device is Ok
            &&& session_result(replies.session) is Ok
            &&& replies.views matches Ok(views) && eyes_result(views@) is Ok
            &&& replies.format_offer matches Ok(offer) && (formats_result(
                offer.formats@,
                offer.depth_layers,
            ) matches Ok(formats) && (formats.depth is Some ==> replies.depth_swapchain is Ok))
            &&& replies.swapchain is Ok
            &&& replies.space is Ok
        },
        setup_result(asked, replies) matches Ok(xr) ==> {
            &&& xr.instance == replies.instance_offer->Ok_0.planned()->Ok_0
            &&& xr.device == replies.device_offer->Ok_0.planned()->Ok_0
        },
{
}

/// Color and depth go together: both swapchains have images of the same size,
/// with as many samples, for as many eyes.
pub proof fn depth_images_match_color_images<E>(asked: XrExtensions, replies: SetupReplies<E>)
    ensures
        setup_result(asked, replies) matches Ok(xr) ==> (xr.depth_swapchain matches Some(depth)
            ==> {
            &&& depth.width == xr.swapchain.width == xr.render_size.x
            &&& depth.height == xr.swapchain.height == xr.render_size.y
            &&& depth.sample_count == xr.swapchain.sample_count
            &&& depth.array_size == xr.swapchain.array_size
        }),
{
}

/// The first thing that fails is why the setup fails, whatever would have come of
/// what follows it.
pub proof fn first_failure_ends_the_setup<E>(asked: XrExtensions, replies: SetupReplies<E>)
    ensures
        ({
            let result = setup_result(asked, replies);
            let blended = replies.system is Ok && (replies.blend_modes matches Ok(modes)
                && modes@.contains(1));
            let planned = blended && (replies.instance_offer matches Ok(offer)
                && offer.planned() is Ok);
            let instance = planned && replies.instance is Ok;
            let device_planned = instance && (replies.device_offer matches Ok(offer)
                && offer.planned() is Ok);
            let device = device_planned && replies.device is Ok;
            let session = device && replies.session.code >= 0;
            let seen = session && (replies.views matches Ok(views) && views@.len() == 2);
            &&& replies.system matches Err(e) ==> result == Err::<OpenXrView, SetupFailure<E>>(
                SetupFailure::Outside(e),
            )
            &&& replies.system is Ok ==> (replies.blend_modes matches Err(e) ==> result == Err::<
                OpenXrView,
                SetupFailure<E>,
            >(SetupFailure::Outside(e)))
            &&& replies.system is Ok && replies.blend_modes is Ok && !blended ==> result == Err::<
                OpenXrView,
                SetupFailure<E>,
            >(SetupFailure::Refused(SetupError::NoOpaqueBlendMode))
            &&& blended ==> (replies.instance_offer matches Err(e) ==> result == Err::<
                OpenXrView,
                SetupFailure<E>,
            >(SetupFailure::Outside(e)))
            &&& blended ==> (replies.instance_offer matches Ok(offer) ==> (
            offer.planned() matches Err(e) ==> result == Err::<OpenXrView, SetupFailure<E>>(
                SetupFailure::Refused(e),
            )))
            &&& planned ==> (replies.instance matches Err(e) ==> result == Err::<
                OpenXrView,
                SetupFailure<E>,
            >(SetupFailure::Outside(e)))
            &&& instance ==> (replies.device_offer matches Err(e) ==> result == Err::<
                OpenXrView,
                SetupFailure<E>,
            >(SetupFailure::Outside(e)))
            &&& instance ==> (replies.device_offer matches Ok(offer) ==> (
            offer.planned() matches Err(e) ==> result == Err::<OpenXrView, SetupFailure<E>>(
                SetupFailure::Refused(e),
            )))
            &&& device_planned ==> (replies.device matches Err(e) ==> result == Err::<
                OpenXrView,
                SetupFailure<E>,
            >(SetupFailure::Outside(e)))
            &&& device && replies.session.code < 0 ==> result == Err::<
                OpenXrView,
                SetupFailure<E>,
            >(SetupFailure::Refused(SetupError::Session(replies.session)))
            &&& session ==> (replies.views matches Err(e) ==> result == Err::<
                OpenXrView,
                SetupFailure<E>,
            >(SetupFailure::Outside(e)))
            &&& session && replies.views is Ok && !seen ==> result == Err::<
                OpenXrView,
                SetupFailure<E>,
            >(SetupFailure::Refused(SetupError::UnexpectedViews))
            &&& seen ==> (replies.format_offer matches Err(e) ==> result == Err::<
                OpenXrView,
                SetupFailure<E>,
            >(SetupFailure::Outside(e)))
            &&& seen ==> (replies.format_offer matches Ok(offer) ==> (formats_result(
                offer.formats@,
                offer.depth_layers,
            ) matches Err(e) ==> result == Err::<OpenXrView, SetupFailure<E>>(
                SetupFailure::Refused(e),
            )))
        }),
{
}

/// Once the formats are chosen only the swapchains and the reference space can fail.
/// An application that is set up draws for eyes of the size that it asked swapchains
/// for, with the instance, the device and the formats that were planned. The
/// swapchain for depth does not matter where there is no format for it.
pub proof fn applications_are_set_up_as_planned<E>(
    asked: XrExtensions,
    replies: SetupReplies<E>,
    formats: FormatChoice,
)
    requires
        replies.formats_chosen() == Ok::<FormatChoice, SetupFailure<E>>(formats),
    ensures
        ({
            let result = setup_result(asked, replies);
            let depth_failed = formats.depth is Some && replies.depth_swapchain is Err;
            &&& replies.swapchain matches Err(e) ==> result == Err::<
                OpenXrView,
                SetupFailure<E>,
            >(SetupFailure::Outside(e))
            &&& replies.swapchain is Ok && depth_failed ==> result == Err::<
                OpenXrView,
                SetupFailure<E>,
            >(SetupFailure::Outside(replies.depth_swapchain->Err_0))
            &&& replies.swapchain is Ok && !depth_failed ==> (replies.space matches Err(e)
                ==> result == Err::<OpenXrView, SetupFailure<E>>(SetupFailure::Outside(e)))
            &&& replies.swapchain is Ok && !depth_failed && replies.space is Ok ==> result is Ok
            &&& result matches Ok(xr) ==> {
                &&& xr.extensions == required_extensions(asked)
                &&& xr.instance == replies.instance_offer->Ok_0.planned()->Ok_0
                &&& xr.device == replies.device_offer->Ok_0.planned()->Ok_0
                &&& xr.swapchain.width == xr.render_size.x && xr.swapchain.height
                    == xr.render_size.y
                &&& xr.render_size == eyes_result(replies.views->Ok_0@)->Ok_0.size
                &&& xr.swapchain.sample_count == eyes_result(
                    replies.views->Ok_0@,
                )->Ok_0.sample_count
                &&& xr.swapchain.format == formats.color
                &&& xr.depth_swapchain is Some <==> formats.depth is Some
                &&& xr.depth_swapchain matches Some(depth) ==> formats.depth == Some(depth.format)
            }
        }),
{
}

} // verus!
