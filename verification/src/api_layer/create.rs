//! What the layer does with a session that is being created.
use crate::api_layer::session::{SessionData, SessionDataInner, SessionState};
use crate::vulkan::Version;
use crate::xr::{XrErr, ERROR_VALIDATION_FAILURE};
use vstd::prelude::*;

verus! {

/// The graphics that a session is created with.
#[derive(Debug, Eq, PartialEq, Clone, Copy, Structural)]
pub enum GraphicsBinding {
    Vulkan {
        /// The application's Vulkan instance.
        instance: u64,
        queue_family_index: u32,
        queue_index: u32,
    },
    Other,
}

/// A request to create a session.
#[derive(Debug, Clone, Copy)]
pub struct CreateRequest {
    /// Whether it is a Vulkan session.
    pub is_vulkan: bool,
    pub graphics_binding: Option<GraphicsBinding>,
    pub system_id: u64,
}

/// What to do with a session that is being created.
#[derive(Debug, Eq, PartialEq, Clone, Copy, Structural)]
pub enum CreatePlan {
    /// Leave the session alone.
    LeaveAlone,
    /// Do not let it be created.
    Refuse(XrErr),
    /// Wrap it, with these graphics.
    Wrap { instance: u64, queue_family_index: u32, queue_index: u32 },
}

/// What the runtime and the driver answer while a session is being wrapped.
#[derive(Debug, Clone, Copy)]
pub struct CreateReplies {
    /// The record of the OpenXR instance: the API version that the Vulkan instance
    /// was created with, if it was created through this layer.
    pub recorded: Result<Option<Version>, XrErr>,
    /// The lowest API version that the runtime supports, as OpenXR packs it.
    /// Asked for only if there is no recorded version.
    pub min_version: Result<u64, XrErr>,
    /// Whether the physical device could be wrapped.
    pub physical_device: bool,
    /// Whether the reference space could be created.
    pub space: Result<(), XrErr>,
}

/// What to do with a session that is being created: only Vulkan sessions are
/// wrapped, and one that comes without Vulkan graphics is in error.
pub open spec fn create_plan(request: CreateRequest) -> CreatePlan {
    if !request.is_vulkan {
        CreatePlan::LeaveAlone
    } else {
        match request.graphics_binding {
            Some(GraphicsBinding::Vulkan { instance, queue_family_index, queue_index }) => CreatePlan::Wrap {
                instance,
                queue_family_index,
                queue_index,
            },
            _ => CreatePlan::Refuse(XrErr { code: ERROR_VALIDATION_FAILURE }),
        }
    }
}

/// The Vulkan version that a number means in OpenXR's packing: sixteen bits of
/// major number, sixteen bits of minor number, and 32 bits of patch number. All
/// patches of a version are compatible, so the first one is meant.
pub open spec fn openxr_version(packed: u64) -> Version {
    Version {
        major: (packed / 0x1_0000_0000_0000) as u32,
        minor: (packed / 0x1_0000_0000 % 0x1_0000) as u32,
        patch: 0,
    }
}

/// The Vulkan API version that the layer takes an application's instance to
/// have: the one that it was created with, if that is known, else the lowest one
/// that the runtime supports.
pub open spec fn session_api_version(recorded: Option<Version>, min_version: u64) -> Version {
    match recorded {
        Some(version) => version,
        None => openxr_version(min_version),
    }
}

/// An instance that the layer knows nothing of is taken to have the lowest version
/// that the runtime supports, whatever its patch number.
pub proof fn unknown_instances_get_the_lowest_version(major: u16, minor: u16, patch: u32)
    ensures
        session_api_version(
            None,
            (major * 0x1_0000_0000_0000 + minor * 0x1_0000_0000 + patch) as u64,
        ) == (Version { major: major as u32, minor: minor as u32, patch: 0 }),
{
}

/// A session that was just wrapped: idle, with nothing attached.
pub open spec fn new_session(system_id: u64) -> SessionData {
    SessionData {
        inner: Some(
            SessionDataInner { state: SessionState::Idle { passthrough: None }, system_id },
        ),
    }
}

/// What the layer keeps for a session that is being created.
pub open spec fn create_result(request: CreateRequest, replies: CreateReplies) -> Result<
    SessionData,
    XrErr,
> {
    match create_plan(request) {
        CreatePlan::LeaveAlone => Ok(SessionData { inner: None }),
        CreatePlan::Refuse(e) => Err(e),
        CreatePlan::Wrap { .. } => if replies.recorded is Err {
            Err(replies.recorded->Err_0)
        } else if replies.recorded->Ok_0 is None && replies.min_version is Err {
            Err(replies.min_version->Err_0)
        } else if !replies.physical_device {
            Ok(SessionData { inner: None })
        } else if replies.space is Err {
            Err(replies.space->Err_0)
        } else {
            Ok(new_session(request.system_id))
        },
    }
}

impl CreateRequest {
    /// What to do with the session.
    pub fn plan(&self) -> (plan: CreatePlan)
        requires
            self.is_vulkan ==> self.graphics_binding is Some,
        ensures
            plan == create_plan(*self),
    {
        if !self.is_vulkan {
            return CreatePlan::LeaveAlone;
        }
        match self.graphics_binding {
            Some(GraphicsBinding::Vulkan { instance, queue_family_index, queue_index }) => {
                CreatePlan::Wrap { instance, queue_family_index, queue_index }
            },
            _ => CreatePlan::Refuse(XrErr { code: ERROR_VALIDATION_FAILURE }),
        }
    }
}

/// The Vulkan API version that the layer takes an application's instance to
/// have.
pub fn api_version(recorded: Option<Version>, min_version: u64) -> (version: Version)
    ensures
        version == session_api_version(recorded, min_version),
{
    match recorded {
        Some(version) => version,
        None => Version {
            major: (min_version / 0x1_0000_0000_0000) as u32,
            minor: (min_version / 0x1_0000_0000 % 0x1_0000) as u32,
            patch: 0,
        },
    }
}

/// How the application's Vulkan instance is taken to have been created.
#[derive(Debug, Eq, PartialEq, Clone, Copy, Structural)]
pub struct InstanceWrap {
    pub max_api_version: Version,
    pub khr_external_memory_capabilities: bool,
    pub khr_get_physical_device_properties2: bool,
    pub khr_xcb_surface: bool,
}

/// How an application's Vulkan instance of a version is taken to have been
/// created.
pub open spec fn instance_wrap_for(version: Version) -> InstanceWrap {
    InstanceWrap {
        max_api_version: version,
        khr_external_memory_capabilities: true,
        khr_get_physical_device_properties2: true,
        khr_xcb_surface: true,
    }
}

/// How an application's Vulkan instance of a version is taken to have been
/// created.
pub fn instance_wrap(version: Version) -> (wrap: InstanceWrap)
    ensures
        wrap == instance_wrap_for(version),
{
    InstanceWrap {
        max_api_version: version,
        khr_external_memory_capabilities: true,
        khr_get_physical_device_properties2: true,
        khr_xcb_surface: true,
    }
}

/// How the application's Vulkan device is taken to have been created.
#[derive(Debug, Eq, PartialEq, Clone, Copy, Structural)]
pub struct DeviceWrap {
    pub queue_family_index: u32,
    /// Number of queues of that family.
    pub queue_count: u64,
    /// The one of them that is used.
    pub queue_index: u32,
    pub khr_copy_commands2: bool,
}

/// How the application's Vulkan device is taken to have been created: with all
/// queues up to the one that the application uses.
pub open spec fn device_wrap_for(queue_family_index: u32, queue_index: u32) -> DeviceWrap {
    DeviceWrap {
        queue_family_index,
        queue_count: (queue_index + 1) as u64,
        queue_index,
        khr_copy_commands2: true,
    }
}

/// How the application's Vulkan device is taken to have been created.
pub fn device_wrap(queue_family_index: u32, queue_index: u32) -> (wrap: DeviceWrap)
    ensures
        wrap == device_wrap_for(queue_family_index, queue_index),
{
    DeviceWrap {
        queue_family_index,
        queue_count: queue_index as u64 + 1,
        queue_index,
        khr_copy_commands2: true,
    }
}

/// How far wrapping a session has come: what it waits for.
#[derive(Debug, Eq, PartialEq, Clone, Copy, Structural)]
pub enum CreateStage {
    Instance,
    MinVersion,
    Device,
    Space,
    Finished,
}

/// What is to be done next.
#[derive(Debug)]
pub enum CreateAction {
    /// Look the OpenXR instance's record up, and in it the version of this Vulkan
    /// instance.
    FindInstance { vulkan_instance: u64 },
    /// Ask the runtime for the lowest version that this system supports.
    AskRequirements { system_id: u64 },
    /// Wrap the application's Vulkan objects.
    WrapDevice { instance: InstanceWrap, device: DeviceWrap },
    /// Create the reference space.
    CreateSpace,
    /// Done.
    Return { result: Result<SessionData, XrErr> },
}

/// A session that is being wrapped.
#[derive(Debug, Clone, Copy)]
pub struct Create {
    pub request: CreateRequest,
    pub stage: CreateStage,
}

/// Ends wrapping a session.
pub open spec fn create_ends(result: Result<SessionData, XrErr>) -> (CreateStage, CreateAction) {
    (CreateStage::Finished, CreateAction::Return { result })
}

/// The first step of wrapping a session.
pub open spec fn create_first(request: CreateRequest) -> (CreateStage, CreateAction) {
    match create_plan(request) {
        CreatePlan::LeaveAlone => create_ends(Ok(SessionData { inner: None })),
        CreatePlan::Refuse(e) => create_ends(Err(e)),
        CreatePlan::Wrap { instance, .. } => (
            CreateStage::Instance,
            CreateAction::FindInstance { vulkan_instance: instance },
        ),
    }
}

/// The step in which the application's Vulkan objects are wrapped.
pub open spec fn create_wraps(request: CreateRequest, version: Version) -> (
    CreateStage,
    CreateAction,
) {
    match create_plan(request) {
        CreatePlan::Wrap { queue_family_index, queue_index, .. } => (
            CreateStage::Device,
            CreateAction::WrapDevice {
                instance: instance_wrap_for(version),
                device: device_wrap_for(queue_family_index, queue_index),
            },
        ),
        _ => create_first(request),
    }
}

/// The step after the instance's record was looked up. The runtime is asked for a
/// version only if there is none in the record.
pub open spec fn create_after_instance(
    request: CreateRequest,
    recorded: Result<Option<Version>, XrErr>,
) -> (CreateStage, CreateAction) {
    match recorded {
        Err(e) => create_ends(Err(e)),
        Ok(None) => (
            CreateStage::MinVersion,
            CreateAction::AskRequirements { system_id: request.system_id },
        ),
        Ok(Some(version)) => create_wraps(request, version),
    }
}

/// The step after the runtime's lowest version is known.
pub open spec fn create_after_min_version(
    request: CreateRequest,
    min_version: Result<u64, XrErr>,
) -> (CreateStage, CreateAction) {
    match min_version {
        Err(e) => create_ends(Err(e)),
        Ok(min_version) => create_wraps(request, session_api_version(None, min_version)),
    }
}

/// The step after the application's Vulkan objects were wrapped. Without them the
/// session is left alone.
pub open spec fn create_after_device(wrapped: bool) -> (CreateStage, CreateAction) {
    if wrapped {
        (CreateStage::Space, CreateAction::CreateSpace)
    } else {
        create_ends(Ok(SessionData { inner: None }))
    }
}

/// The step after the reference space was created.
pub open spec fn create_after_space(request: CreateRequest, space: Result<(), XrErr>) -> (
    CreateStage,
    CreateAction,
) {
    match space {
        Err(e) => create_ends(Err(e)),
        Ok(()) => create_ends(Ok(new_session(request.system_id))),
    }
}

impl Create {
    /// Only a session that is to be wrapped waits for anything.
    pub open spec fn valid(self) -> bool {
        self.stage is Finished || create_plan(self.request) is Wrap
    }

    fn end(&mut self, result: Result<SessionData, XrErr>) -> (action: CreateAction)
        ensures
            final(self).request == old(self).request,
            (final(self).stage, action) == create_ends(result),
    {
        self.stage = CreateStage::Finished;
        CreateAction::Return { result }
    }

    fn wrap(&mut self, version: Version) -> (action: CreateAction)
        requires
            create_plan(old(self).request) is Wrap,
        ensures
            final(self).request == old(self).request,
            (final(self).stage, action) == create_wraps(old(self).request, version),
    {
        match self.request.plan() {
            CreatePlan::Wrap { queue_family_index, queue_index, .. } => {
                self.stage = CreateStage::Device;
                CreateAction::WrapDevice {
                    instance: instance_wrap(version),
                    device: device_wrap(queue_family_index, queue_index),
                }
            },
            _ => self.end(Ok(SessionData::default())),
        }
    }

    /// Starts to wrap a session.
    pub fn start(request: CreateRequest) -> (started: (Create, CreateAction))
        requires
            request.is_vulkan ==> request.graphics_binding is Some,
        ensures
            started.0.request == request,
            (started.0.stage, started.1) == create_first(request),
            started.0.valid(),
    {
        let mut create = Create { request, stage: CreateStage::Finished };
        let action = match request.plan() {
            CreatePlan::LeaveAlone => create.end(Ok(SessionData::default())),
            CreatePlan::Refuse(e) => create.end(Err(e)),
            CreatePlan::Wrap { instance, .. } => {
                create.stage = CreateStage::Instance;
                CreateAction::FindInstance { vulkan_instance: instance }
            },
        };
        (create, action)
    }

    /// Goes on with what the instance's record says.
    pub fn instance_found(&mut self, recorded: Result<Option<Version>, XrErr>) -> (action:
        CreateAction)
        requires
            old(self).valid(),
            old(self).stage is Instance,
        ensures
            final(self).request == old(self).request,
            (final(self).stage, action) == create_after_instance(old(self).request, recorded),
            final(self).valid(),
    {
        match recorded {
            Err(e) => self.end(Err(e)),
            Ok(None) => {
                self.stage = CreateStage::MinVersion;
                CreateAction::AskRequirements { system_id: self.request.system_id }
            },
            Ok(Some(version)) => self.wrap(version),
        }
    }

    /// Goes on with the runtime's lowest version.
    pub fn min_version_known(&mut self, min_version: Result<u64, XrErr>) -> (action: CreateAction)
        requires
            old(self).valid(),
            old(self).stage is MinVersion,
        ensures
            final(self).request == old(self).request,
            (final(self).stage, action) == create_after_min_version(
                old(self).request,
                min_version,
            ),
            final(self).valid(),
    {
        match min_version {
            Err(e) => self.end(Err(e)),
            Ok(min_version) => self.wrap(api_version(None, min_version)),
        }
    }

    /// Goes on after wrapping the application's Vulkan objects.
    pub fn device_wrapped(&mut self, wrapped: bool) -> (action: CreateAction)
        requires
            old(self).valid(),
            old(self).stage is Device,
        ensures
            final(self).request == old(self).request,
            (final(self).stage, action) == create_after_device(wrapped),
            final(self).valid(),
    {
        if wrapped {
            self.stage = CreateStage::Space;
            CreateAction::CreateSpace
        } else {
            self.end(Ok(SessionData::default()))
        }
    }

    /// Goes on after creating the reference space.
    pub fn space_created(&mut self, space: Result<(), XrErr>) -> (action: CreateAction)
        requires
            old(self).valid(),
            old(self).stage is Space,
        ensures
            final(self).request == old(self).request,
            (final(self).stage, action) == create_after_space(old(self).request, space),
            final(self).valid(),
    {
        if let Err(e) = space {
            return self.end(Err(e));
        }
        let data = SessionData {
            inner: Some(
                SessionDataInner {
                    state: SessionState::Idle { passthrough: None },
                    system_id: self.request.system_id,
                },
            ),
        };
        self.end(Ok(data))
    }
}

impl SessionData {
    /// What the layer keeps for a session that is being created, given all that
    /// the runtime and the driver answer.
    pub fn on_create(request: CreateRequest, replies: CreateReplies) -> (result: Result<
        SessionData,
        XrErr,
    >)
        requires
            request.is_vulkan ==> request.graphics_binding is Some,
        ensures
            result == create_result(request, replies),
            result matches Ok(data) ==> data.valid(),
    {
        let (mut create, mut action) = Create::start(request);
        if let CreateAction::FindInstance { .. } = action {
            action = create.instance_found(replies.recorded);
        }
        if let CreateAction::AskRequirements { .. } = action {
            action = create.min_version_known(replies.min_version);
        }
        if let CreateAction::WrapDevice { .. } = action {
            action = create.device_wrapped(replies.physical_device);
        }
        if let CreateAction::CreateSpace = action {
            action = create.space_created(replies.space);
        }
        match action {
            CreateAction::Return { result } => result,
            _ => Ok(SessionData::default()),
        }
    }
}

/// The device is wrapped with the queues of the application's family up to the one
/// that the application uses, and with that one in use.
pub proof fn applications_queue_is_the_last_one(queue_family_index: u32, queue_index: u32)
    ensures
        ({
            let wrap = device_wrap_for(queue_family_index, queue_index);
            &&& wrap.queue_family_index == queue_family_index
            &&& wrap.queue_index == queue_index
            &&& wrap.queue_index < wrap.queue_count
            &&& wrap.queue_count - 1 == wrap.queue_index
            &&& wrap.khr_copy_commands2
        }),
{
}

/// A Vulkan session is wrapped with the application's own instance, queue family
/// and queue, and is kept for the system that it was created for. The version is
/// the one in the record, where there is one; else the runtime is asked about that
/// system.
pub proof fn sessions_are_wrapped_with_their_own_graphics(
    vulkan_instance: u64,
    queue_family_index: u32,
    queue_index: u32,
    system_id: u64,
    version: Version,
    packed: u64,
)
    ensures
        ({
            let request = CreateRequest {
                is_vulkan: true,
                graphics_binding: Some(
                    GraphicsBinding::Vulkan {
                        instance: vulkan_instance,
                        queue_family_index,
                        queue_index,
                    },
                ),
                system_id,
            };
            &&& create_first(request).1 == (CreateAction::FindInstance { vulkan_instance })
            &&& create_after_instance(request, Ok(None)).1 == (CreateAction::AskRequirements {
                system_id,
            })
            &&& create_after_instance(request, Ok(Some(version))).1 matches CreateAction::WrapDevice {
                instance,
                device,
            } && instance.max_api_version == version && instance.khr_external_memory_capabilities
                && instance.khr_get_physical_device_properties2 && instance.khr_xcb_surface
                && device.queue_family_index == queue_family_index && device.queue_index
                == queue_index && device.queue_count == queue_index + 1
            &&& create_after_min_version(request, Ok(packed)).1 matches CreateAction::WrapDevice {
                instance,
                device,
            } && instance.max_api_version == session_api_version(None, packed)
                && device.queue_family_index == queue_family_index && device.queue_index
                == queue_index && device.queue_count == queue_index + 1
            &&& create_after_device(true).1 is CreateSpace
            &&& create_after_space(request, Ok(())).1 matches CreateAction::Return { result }
                && result matches Ok(data) && data.inner matches Some(inner) && inner.system_id
                == system_id && inner.state == (SessionState::Idle { passthrough: None })
        }),
{
}

/// What the layer keeps of a session that is created. One that is not a Vulkan
/// session is left alone, and so is one whose device cannot be wrapped. One that
/// comes with other graphics is refused. Otherwise the first failure is the answer,
/// and where there is none the session is idle, with nothing attached.
pub proof fn sessions_are_kept_or_left_alone(
    request: CreateRequest,
    replies: CreateReplies,
    version: Version,
)
    ensures
        !request.is_vulkan ==> create_result(request, replies) == Ok::<SessionData, XrErr>(
            SessionData { inner: None },
        ),
        request.is_vulkan && request.graphics_binding == Some(GraphicsBinding::Other)
            ==> create_result(request, replies) == Err::<SessionData, XrErr>(
            XrErr { code: ERROR_VALIDATION_FAILURE },
        ),
        request.is_vulkan && request.graphics_binding is Some
            && request.graphics_binding->Some_0 is Vulkan ==> {
            let result = create_result(request, replies);
            let known = replies.recorded == Ok::<Option<Version>, XrErr>(Some(version));
            let asked = replies.recorded == Ok::<Option<Version>, XrErr>(None);
            let versioned = known || asked && replies.min_version is Ok;
            &&& replies.recorded matches Err(e) ==> result == Err::<SessionData, XrErr>(e)
            &&& asked ==> (replies.min_version matches Err(e) ==> result == Err::<
                SessionData,
                XrErr,
            >(e))
            &&& versioned && !replies.physical_device ==> result == Ok::<SessionData, XrErr>(
                SessionData { inner: None },
            )
            &&& versioned && replies.physical_device ==> (replies.space matches Err(e) ==> result
                == Err::<SessionData, XrErr>(e))
            &&& versioned && replies.physical_device && replies.space is Ok ==> (
            result matches Ok(data) && data.inner matches Some(inner) && inner.system_id
                == request.system_id && inner.state == (SessionState::Idle { passthrough: None }))
        },
{
}

} // verus!
