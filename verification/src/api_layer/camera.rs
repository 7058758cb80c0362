//! Setting the camera up for a session.
use crate::device::{find_index_camera, DeviceInfo};
use crate::pipeline::{Pipeline, PipelineRequest, SamplerSupport};
use crate::vulkan::{ImageUsage, UVec2};
use crate::xr::{XrErr, ERROR_RUNTIME_FAILURE};
use crate::CAMERA_SIZE;
use vstd::prelude::*;
use vstd::utf8::*;

verus! {

use crate::device::{first_value, is_index_camera};

/// What camera images are used for once they are finished: to draw from them, and
/// to copy them.
pub open spec fn camera_image_usage() -> ImageUsage {
    ImageUsage { sampled: true, transfer_src: true, ..ImageUsage::spec_none() }
}

/// The pipeline for a session whose eyes are each `size` pixels large. The camera
/// delivers YUYV.
pub open spec fn camera_request_for(
    sampler: SamplerSupport,
    has_camera_config: bool,
    size: UVec2,
) -> PipelineRequest {
    PipelineRequest {
        sampler,
        source_is_yuyv: true,
        has_camera_config,
        output_usage: camera_image_usage(),
        camera_size: UVec2 { x: CAMERA_SIZE, y: CAMERA_SIZE },
        render_size: size,
    }
}

/// The pipeline for a session whose eyes are each `size` pixels large.
pub fn camera_request(sampler: SamplerSupport, has_camera_config: bool, size: UVec2) -> (request:
    PipelineRequest)
    requires
        size.x * 2 <= u32::MAX,
    ensures
        request == camera_request_for(sampler, has_camera_config, size),
        request.fits(),
{
    let mut output_usage = ImageUsage::none();
    output_usage.sampled = true;
    output_usage.transfer_src = true;
    assert(CAMERA_SIZE * CAMERA_SIZE == 921600) by (nonlinear_arith);
    PipelineRequest {
        sampler,
        source_is_yuyv: true,
        has_camera_config,
        output_usage,
        camera_size: UVec2::new(CAMERA_SIZE, CAMERA_SIZE),
        render_size: size,
    }
}

/// What the system answers while the camera is set up.
#[derive(Debug)]
pub struct CameraReplies {
    /// Whether there is a pipeline cache, be it an empty one.
    pub pipeline_cache: bool,
    /// Whether the pipeline could be created.
    pub pipeline: bool,
    /// The devices among which the camera is looked for, if they could be
    /// listed.
    pub devices: Option<Vec<DeviceInfo>>,
    /// Whether the camera could be opened.
    pub opened: bool,
}

/// Whether the camera at a place is the one to use: it is the first one, and has
/// a device node.
pub open spec fn is_camera_to_use(devices: Seq<DeviceInfo>, i: int) -> bool {
    &&& 0 <= i < devices.len()
    &&& is_index_camera(devices[i])
    &&& devices[i].has_devnode
    &&& forall|j: int| 0 <= j < i ==> !is_index_camera(#[trigger] devices[j])
}

/// A camera that is set up.
#[derive(Debug)]
pub struct CameraResources {
    /// Place of the camera among the devices.
    pub camera: usize,
    pub pipeline: Pipeline,
}

/// How far setting the camera up has come: what it waits for.
#[derive(Debug, Eq, PartialEq, Clone, Copy, Structural)]
pub enum CameraStage {
    Cache,
    Pipeline,
    Devices,
    Opening { camera: usize },
    Finished,
}

/// What is to be done next.
#[derive(Debug, Clone, Copy)]
pub enum CameraAction {
    /// Load the pipeline cache.
    LoadPipelineCache,
    /// Create the pipeline.
    CreatePipeline,
    /// List the devices among which the camera is looked for.
    ListDevices,
    /// Open the device at this place in the list.
    OpenCamera { camera: usize },
    /// Done: the camera is the device at this place, if all went well.
    Return { result: Result<usize, XrErr> },
}

/// A camera that is being set up.
#[derive(Debug, Eq, PartialEq, Clone, Copy, Structural)]
pub struct CameraSetup {
    pub stage: CameraStage,
}

/// Ends setting the camera up. Whatever goes wrong, the application is told of a
/// failure of the runtime.
pub open spec fn camera_fails() -> (CameraStage, CameraAction) {
    (
        CameraStage::Finished,
        CameraAction::Return { result: Err(XrErr { code: ERROR_RUNTIME_FAILURE }) },
    )
}

/// The step after loading the pipeline cache.
pub open spec fn camera_after_cache(loaded: bool) -> (CameraStage, CameraAction) {
    if loaded {
        (CameraStage::Pipeline, CameraAction::CreatePipeline)
    } else {
        camera_fails()
    }
}

/// The step after creating the pipeline. No device is looked at without one.
pub open spec fn camera_after_pipeline(created: bool) -> (CameraStage, CameraAction) {
    if created {
        (CameraStage::Devices, CameraAction::ListDevices)
    } else {
        camera_fails()
    }
}

/// The step after opening a camera.
pub open spec fn camera_after_opening(camera: usize, opened: bool) -> (CameraStage, CameraAction) {
    if opened {
        (CameraStage::Finished, CameraAction::Return { result: Ok(camera) })
    } else {
        camera_fails()
    }
}

impl CameraSetup {
    fn fail(&mut self) -> (action: CameraAction)
        ensures
            (final(self).stage, action) == camera_fails(),
    {
        self.stage = CameraStage::Finished;
        CameraAction::Return { result: Err(XrErr { code: ERROR_RUNTIME_FAILURE }) }
    }

    /// Starts to set the camera up.
    pub fn start() -> (started: (CameraSetup, CameraAction))
        ensures
            started.0.stage is Cache,
            started.1 is LoadPipelineCache,
    {
        (CameraSetup { stage: CameraStage::Cache }, CameraAction::LoadPipelineCache)
    }

    /// Goes on after loading the pipeline cache.
    pub fn cache_loaded(&mut self, loaded: bool) -> (action: CameraAction)
        requires
            old(self).stage is Cache,
        ensures
            (final(self).stage, action) == camera_after_cache(loaded),
    {
        if !loaded {
            return self.fail();
        }
        self.stage = CameraStage::Pipeline;
        CameraAction::CreatePipeline
    }

    /// Goes on after creating the pipeline. No device is looked at without one.
    pub fn pipeline_created(&mut self, created: bool) -> (action: CameraAction)
        requires
            old(self).stage is Pipeline,
        ensures
            (final(self).stage, action) == camera_after_pipeline(created),
    {
        if !created {
            return self.fail();
        }
        self.stage = CameraStage::Devices;
        CameraAction::ListDevices
    }

    /// Goes on with the devices, if they could be listed: the camera to use among
    /// them is opened.
    pub fn devices_listed(&mut self, devices: Option<&[DeviceInfo]>) -> (action: CameraAction)
        requires
            old(self).stage is Devices,
        ensures
            match final(self).stage {
                CameraStage::Opening { camera } => {
                    &&& action == (CameraAction::OpenCamera { camera })
                    &&& devices is Some
                    &&& is_camera_to_use(devices->Some_0@, camera as int)
                },
                stage => {
                    &&& (stage, action) == camera_fails()
                    &&& devices matches Some(listed) ==> !(exists|i: int|
                        #[trigger] is_camera_to_use(listed@, i))
                },
            },
    {
        let devices = match devices {
            Some(devices) => devices,
            None => return self.fail(),
        };
        match find_index_camera(devices) {
            Ok(camera) => {
                assert(is_camera_to_use(devices@, camera as int));
                self.stage = CameraStage::Opening { camera };
                CameraAction::OpenCamera { camera }
            },
            Err(_) => self.fail(),
        }
    }

    /// Goes on after opening the camera.
    pub fn camera_opened(&mut self, opened: bool) -> (action: CameraAction)
        requires
            old(self).stage is Opening,
        ensures
            (final(self).stage, action) == camera_after_opening(old(self).stage->camera, opened),
    {
        if let CameraStage::Opening { camera } = self.stage {
            if opened {
                self.stage = CameraStage::Finished;
                return CameraAction::Return { result: Ok(camera) };
            }
        }
        self.fail()
    }
}

/// Sets the camera up for a session whose eyes are each `size` pixels large, given
/// all that the system answers. Whatever goes wrong, the application is told of a
/// failure of the runtime.
pub fn create_camera_resources(
    sampler: SamplerSupport,
    has_camera_config: bool,
    size: UVec2,
    replies: &CameraReplies,
) -> (resources: Result<CameraResources, XrErr>)
    requires
        size.x * 2 <= u32::MAX,
    ensures
        resources is Ok <==> replies.pipeline_cache && replies.pipeline && replies.opened && (
        replies.devices matches Some(devices) && exists|i: int|
            #[trigger] is_camera_to_use(devices@, i)),
        match resources {
            Ok(r) => is_camera_to_use(replies.devices->Some_0@, r.camera as int)
                && r.pipeline.is_fresh_for(camera_request_for(sampler, has_camera_config, size)),
            Err(e) => e.code == ERROR_RUNTIME_FAILURE,
        },
{
    let (mut setup, mut action) = CameraSetup::start();
    if let CameraAction::LoadPipelineCache = action {
        action = setup.cache_loaded(replies.pipeline_cache);
    }
    if let CameraAction::CreatePipeline = action {
        action = setup.pipeline_created(replies.pipeline);
    }
    if let CameraAction::ListDevices = action {
        let devices = match &replies.devices {
            Some(devices) => Some(devices.as_slice()),
            None => None,
        };
        action = setup.devices_listed(devices);
        assert(devices matches Some(listed) ==> listed@ == replies.devices->Some_0@);
    }
    if let CameraAction::OpenCamera { .. } = action {
        action = setup.camera_opened(replies.opened);
    }
    match action {
        CameraAction::Return { result } => {
            let camera: usize = match result {
                Ok(camera) => camera,
                Err(e) => return Err(e),
            };
            let pipeline = Pipeline::new(camera_request(sampler, has_camera_config, size));
            Ok(CameraResources { camera, pipeline })
        },
        _ => Err(XrErr { code: ERROR_RUNTIME_FAILURE }),
    }
}

/// The camera's pipeline takes YUYV images of two cameras with 960 by 960 pixels
/// each, and makes images of the size of an eye that can be drawn from and copied
/// from. It corrects what the calibration lets it correct.
pub proof fn camera_pipeline_suits_the_camera(
    sampler: SamplerSupport,
    has_camera_config: bool,
    size: UVec2,
)
    ensures
        ({
            let request = camera_request_for(sampler, has_camera_config, size);
            &&& request.source_is_yuyv
            &&& request.camera_size.x == 960 && request.camera_size.y == 960
            &&& request.render_size == size
            &&& request.sampler == sampler
            &&& request.has_camera_config == has_camera_config
            &&& request.output_usage.sampled && request.output_usage.transfer_src
            &&& !request.output_usage.transfer_dst && !request.output_usage.color_attachment
                && !request.output_usage.depth_stencil_attachment
        }),
{
}

/// The camera is set up in order: without a pipeline cache there is no pipeline, and
/// without a pipeline no camera. Any failure is a failure of the runtime, and where
/// there is none the camera that was opened is the one that is used.
pub proof fn camera_is_set_up_in_order(camera: usize)
    ensures
        camera_after_cache(true) == (CameraStage::Pipeline, CameraAction::CreatePipeline),
        camera_after_pipeline(true) == (CameraStage::Devices, CameraAction::ListDevices),
        camera_after_opening(camera, true) == (
            CameraStage::Finished,
            CameraAction::Return { result: Ok(camera) },
        ),
        camera_after_cache(false) == camera_after_pipeline(false),
        camera_after_pipeline(false) == camera_after_opening(camera, false),
        camera_after_opening(camera, false) == (
            CameraStage::Finished,
            CameraAction::Return { result: Err(XrErr { code: ERROR_RUNTIME_FAILURE }) },
        ),
{
}

/// There is one camera to use at most. It can be opened, its first model number is
/// that of the Index camera, and no such camera comes before it.
pub proof fn camera_to_use_is_the_first_one(devices: Seq<DeviceInfo>, i: int, j: int)
    requires
        is_camera_to_use(devices, i),
    ensures
        0 <= i < devices.len(),
        devices[i].has_devnode,
        first_value(devices[i].properties@, encode_utf8("ID_MODEL_ID"@)) == Some(
            encode_utf8("2400"@),
        ),
        0 <= j < i ==> first_value(devices[j].properties@, encode_utf8("ID_MODEL_ID"@)) != Some(
            encode_utf8("2400"@),
        ),
        is_camera_to_use(devices, j) ==> i == j,
{
    if 0 <= j < i {
        assert(!is_index_camera(devices[j]));
    }
}

/// The first camera is the one to use if it can be opened. If it cannot, no other one
/// takes its place.
pub proof fn no_camera_takes_the_place_of_the_first(devices: Seq<DeviceInfo>, i: int, j: int)
    requires
        0 <= i < devices.len(),
        is_index_camera(devices[i]),
        forall|k: int| 0 <= k < i ==> !is_index_camera(#[trigger] devices[k]),
    ensures
        devices[i].has_devnode ==> is_camera_to_use(devices, i),
        !devices[i].has_devnode ==> !is_camera_to_use(devices, j),
{
}

} // verus!
