//! The path of a camera frame: from the bytes that the camera delivers to an
//! image without lens distortion, one half for each eye.
use crate::vulkan::{Format, ImagePlan, ImageUsage, UVec2};
use crate::FrameInfo;
use vstd::prelude::*;

verus! {

/// The program that turns camera pixels into image pixels.
#[derive(Debug, Eq, PartialEq, Clone, Copy, Structural)]
pub enum FragmentShader {
    /// Converts YUYV, and takes the distortion out.
    YuyvUndistort,
    /// Converts YUYV.
    Yuyv,
    /// Takes the distortion out.
    Undistort,
    /// Copies.
    Unprocessed,
}

/// What a graphics device can do with YUYV images.
#[derive(Debug, Eq, PartialEq, Clone, Copy, Structural)]
pub struct SamplerSupport {
    /// The extension for color converting samplers is enabled.
    pub conversion_extension: bool,
    /// The feature for color converting samplers is enabled.
    pub conversion_feature: bool,
    /// Images of [`Format::G8B8G8R8_422Unorm`] can be sampled with their chroma
    /// midway between pixels. Looked at only if the other two hold.
    pub midpoint_chroma: bool,
}

impl SamplerSupport {
    /// Whether samplers convert YUYV by themselves.
    pub open spec fn spec_converts_yuyv(self) -> bool {
        self.conversion_extension && self.conversion_feature && self.midpoint_chroma
    }

    /// Whether the format's support has to be looked up at all.
    pub fn needs_lookup(&self) -> (yes: bool)
        ensures
            yes == (self.conversion_extension && self.conversion_feature),
    {
        self.conversion_extension && self.conversion_feature
    }

    /// Whether samplers convert YUYV by themselves.
    pub fn converts_yuyv(&self) -> (yes: bool)
        ensures
            yes == self.spec_converts_yuyv(),
    {
        self.needs_lookup() && self.midpoint_chroma
    }
}

/// Binding of the camera image, in the fragment shader.
pub const IMAGE_BINDING: u32 = 1;

/// Binding of the distortion parameters, in the fragment shader.
pub const DISTORTION_BINDING: u32 = 2;

/// Vertices of the quad that is drawn for each eye.
pub const QUAD_VERTICES: u32 = 4;

/// Eyes.
pub const EYES: u32 = 2;

/// What a pipeline is made for.
#[derive(Debug, Eq, PartialEq, Clone, Copy, Structural)]
pub struct PipelineRequest {
    pub sampler: SamplerSupport,
    /// The camera delivers YUYV.
    pub source_is_yuyv: bool,
    /// The cameras' calibration is known.
    pub has_camera_config: bool,
    /// What the finished image is used for.
    pub output_usage: ImageUsage,
    /// Size of the image of one of the two cameras.
    pub camera_size: UVec2,
    /// Size of the finished image for one eye.
    pub render_size: UVec2,
}

impl PipelineRequest {
    /// The fragment shader has to unpack YUYV itself.
    pub open spec fn unpacks_yuyv(self) -> bool {
        self.source_is_yuyv && !self.sampler.spec_converts_yuyv()
    }

    /// Bytes of one frame of the camera.
    pub open spec fn frame_bytes(self) -> int {
        self.camera_size.x * self.camera_size.y * 2 * (if self.source_is_yuyv {
            2int
        } else {
            4int
        })
    }

    /// Whether the sizes that follow from the request can be written down.
    pub open spec fn fits(self) -> bool {
        &&& self.unpacks_yuyv() || self.camera_size.x * 2 <= u32::MAX
        &&& self.render_size.x * 2 <= u32::MAX
        &&& self.frame_bytes() <= u64::MAX
    }
}

/// The program for a kind of frames.
pub open spec fn shader_for(
    source_is_yuyv: bool,
    has_camera_config: bool,
    has_yuyv_sampler: bool,
) -> FragmentShader {
    if source_is_yuyv && !has_yuyv_sampler {
        if has_camera_config {
            FragmentShader::YuyvUndistort
        } else {
            FragmentShader::Yuyv
        }
    } else if has_camera_config {
        FragmentShader::Undistort
    } else {
        FragmentShader::Unprocessed
    }
}

/// The image that a camera frame is uploaded to. Raw YUYV is uploaded as if two
/// pixels were one of four channels, so it takes half the width.
pub open spec fn input_image_for(request: PipelineRequest) -> ImagePlan {
    ImagePlan {
        format: if request.sampler.spec_converts_yuyv() && request.source_is_yuyv {
            Format::G8B8G8R8_422Unorm
        } else {
            Format::R8G8B8A8Unorm
        },
        width: if request.unpacks_yuyv() {
            request.camera_size.x
        } else {
            (request.camera_size.x * 2) as u32
        },
        height: request.camera_size.y,
        array_layers: 1,
        usage: ImageUsage {
            transfer_dst: true,
            transfer_src: true,
            sampled: true,
            color_attachment: true,
            depth_stencil_attachment: false,
        },
    }
}

/// The finished image: both eyes side by side.
pub open spec fn output_image_for(request: PipelineRequest) -> ImagePlan {
    ImagePlan {
        format: Format::R8G8B8A8Unorm,
        width: (request.render_size.x * 2) as u32,
        height: request.render_size.y,
        array_layers: 1,
        usage: ImageUsage {
            color_attachment: true,
            transfer_dst: true,
            ..request.output_usage
        },
    }
}

/// Bytes that one texel of the input image takes.
pub open spec fn texel_bytes(format: Format) -> int {
    match format {
        Format::G8B8G8R8_422Unorm => 2,
        _ => 4,
    }
}

/// A camera frame fills the input image exactly, whichever way it is uploaded.
pub proof fn frame_fills_the_input_image(request: PipelineRequest)
    requires
        request.fits(),
    ensures
        ({
            let image = input_image_for(request);
            request.frame_bytes() == image.width * image.height * texel_bytes(image.format)
        }),
{
    let x = request.camera_size.x as int;
    let y = request.camera_size.y as int;
    assert(x * y * 2 * 2 == x * y * 4) by (nonlinear_arith);
    assert(x * y * 2 * 2 == (x * 2) * y * 2) by (nonlinear_arith);
    assert(x * y * 2 * 4 == (x * 2) * y * 4) by (nonlinear_arith);
}

/// A pipeline: what was set up for it, and what it is doing.
///
/// Work on the graphics card is known by a number that the caller chooses for
/// it.
#[derive(Debug)]
pub struct Pipeline {
    pub shader: FragmentShader,
    pub input_image: ImagePlan,
    pub output_image: ImagePlan,
    /// Length of the buffer through which frames are uploaded.
    pub input_buffer_bytes: u64,
    /// Format that the sampler converts from.
    pub sampler_conversion: Option<Format>,
    /// Bindings of the fragment shader that are filled, in this order.
    pub bindings: Vec<u32>,
    /// Whether lens distortion is taken out.
    pub has_correction: bool,
    pub capture: bool,
    /// The last piece of work that was handed to the graphics card.
    pub previous_upload_end: Option<u64>,
    /// The last frame that need not be looked at again.
    pub previous_frame_time: Option<u64>,
}

/// What to do with a camera frame.
#[derive(Debug, Eq, PartialEq, Clone, Copy, Structural)]
pub enum FrameWork {
    /// Copy the frame to the input buffer and run the pipeline.
    Postprocess,
    /// Upload the frame, a finished image, and stretch it over the output image.
    Blit { source: ImagePlan, buffer_bytes: u64, width: u32, height: u32 },
}

/// What to do when a camera frame is shown.
#[derive(Debug, Eq, PartialEq, Clone, Copy, Structural)]
pub enum FrameStep {
    /// Nothing: the output image shows it already.
    Skip,
    /// Wait for earlier work, if there is any, then do this.
    Run { wait_for: Option<u64>, work: FrameWork },
}

/// The work that a frame takes.
pub open spec fn work_for(frame: FrameInfo, output_image: ImagePlan) -> FrameWork {
    if frame.needs_postprocess {
        FrameWork::Postprocess
    } else {
        FrameWork::Blit {
            source: ImagePlan {
                format: Format::R8G8B8A8Unorm,
                width: (frame.size.x * 2) as u32,
                height: frame.size.y,
                array_layers: 1,
                usage: ImageUsage {
                    transfer_dst: true,
                    transfer_src: true,
                    sampled: true,
                    ..ImageUsage::spec_none()
                },
            },
            buffer_bytes: (frame.size.x * 2 * frame.size.y * 4) as u64,
            width: output_image.width,
            height: output_image.height,
        }
    }
}

/// What to do when a frame is shown, and the work that is still to be waited for
/// afterwards.
pub open spec fn frame_step_for(pipeline: Pipeline, frame: FrameInfo) -> (FrameStep, Option<u64>) {
    if pipeline.previous_frame_time == Some(frame.frame_time) {
        (FrameStep::Skip, pipeline.previous_upload_end)
    } else {
        (
            FrameStep::Run {
                wait_for: pipeline.previous_upload_end,
                work: work_for(frame, pipeline.output_image),
            },
            None,
        )
    }
}

/// A frame is worked on exactly where it is not the one that need not be looked at
/// again. The work before it is then waited for, and forgotten; otherwise it is kept.
pub proof fn earlier_work_is_waited_for(pipeline: Pipeline, frame: FrameInfo)
    ensures
        ({
            let (step, left) = frame_step_for(pipeline, frame);
            &&& step is Skip <==> pipeline.previous_frame_time == Some(frame.frame_time)
            &&& step is Skip ==> left == pipeline.previous_upload_end
            &&& step matches FrameStep::Run { wait_for, work } ==> left is None && wait_for
                == pipeline.previous_upload_end && (work is Postprocess
                <==> frame.needs_postprocess)
        }),
{
}

impl Pipeline {
    /// Whether a frame has the length that its way through the pipeline takes.
    pub open spec fn frame_fits(self, frame: FrameInfo) -> bool {
        if frame.needs_postprocess {
            frame.frame@.len() == self.input_buffer_bytes
        } else {
            &&& frame.frame@.len() == frame.size.x * 2 * frame.size.y * 4
            &&& frame.size.x * 2 <= u32::MAX
        }
    }

    /// Whether this is the pipeline that a request asks for, before it was used.
    pub open spec fn is_fresh_for(self, request: PipelineRequest) -> bool {
        &&& self.shader == shader_for(
            request.source_is_yuyv,
            request.has_camera_config,
            request.sampler.spec_converts_yuyv(),
        )
        &&& self.input_image == input_image_for(request)
        &&& self.output_image == output_image_for(request)
        &&& self.input_buffer_bytes == request.frame_bytes()
        &&& self.sampler_conversion == (if request.sampler.spec_converts_yuyv() {
            Some(input_image_for(request).format)
        } else {
            None
        })
        &&& self.bindings@ == (if request.has_camera_config {
            seq![IMAGE_BINDING, DISTORTION_BINDING]
        } else {
            seq![IMAGE_BINDING]
        })
        &&& self.has_correction == request.has_camera_config
        &&& !self.capture
        &&& self.previous_upload_end is None
        &&& self.previous_frame_time is None
    }

    /// Everything about the pipeline but what it is doing.
    pub open spec fn same_setup(self, other: Pipeline) -> bool {
        &&& self.shader == other.shader
        &&& self.input_image == other.input_image
        &&& self.output_image == other.output_image
        &&& self.input_buffer_bytes == other.input_buffer_bytes
        &&& self.sampler_conversion == other.sampler_conversion
        &&& self.bindings == other.bindings
        &&& self.has_correction == other.has_correction
        &&& self.capture == other.capture
        &&& self.previous_frame_time == other.previous_frame_time
    }

    /// The program for a kind of frames: YUYV has to be converted by the program
    /// unless the sampler does, and distortion can be taken out if the
    /// calibration is known.
    pub fn load_shader(
        source_is_yuyv: bool,
        has_camera_config: bool,
        has_yuyv_sampler: bool,
    ) -> (shader: FragmentShader)
        ensures
            shader == shader_for(source_is_yuyv, has_camera_config, has_yuyv_sampler),
    {
        match (source_is_yuyv && !has_yuyv_sampler, has_camera_config) {
            (true, true) => FragmentShader::YuyvUndistort,
            (true, false) => FragmentShader::Yuyv,
            (false, true) => FragmentShader::Undistort,
            (false, false) => FragmentShader::Unprocessed,
        }
    }

    /// Create post-processing stages
    /// The camera image is two `size` images stitched together side-by-side.
    pub fn new(request: PipelineRequest) -> (pipeline: Self)
        requires
            request.fits(),
        ensures
            pipeline.is_fresh_for(request),
    {
        let has_yuyv_sampler = request.sampler.converts_yuyv();
        let format = if has_yuyv_sampler && request.source_is_yuyv {
            Format::G8B8G8R8_422Unorm
        } else {
            Format::R8G8B8A8Unorm
        };
        let shader = Pipeline::load_shader(
            request.source_is_yuyv,
            request.has_camera_config,
            has_yuyv_sampler,
        );
        let width: u32 = if request.source_is_yuyv && !has_yuyv_sampler {
            request.camera_size.x
        } else {
            request.camera_size.x * 2
        };
        let mut usage = ImageUsage::none();
        usage.transfer_dst = true;
        usage.transfer_src = true;
        usage.sampled = true;
        usage.color_attachment = true;
        let input_image = ImagePlan {
            format,
            width,
            height: request.camera_size.y,
            array_layers: 1,
            usage,
        };
        let mut usage = request.output_usage;
        usage.color_attachment = true;
        usage.transfer_dst = true;
        let output_image = ImagePlan {
            format: Format::R8G8B8A8Unorm,
            width: request.render_size.x * 2,
            height: request.render_size.y,
            array_layers: 1,
            usage,
        };
        let x: u64 = request.camera_size.x as u64;
        let y: u64 = request.camera_size.y as u64;
        let pixel_bytes: u64 = if request.source_is_yuyv {
            2
        } else {
            4
        };
        assert(0 <= x * y <= x * y * 2 <= x * y * 2 * pixel_bytes) by (nonlinear_arith)
            requires
                pixel_bytes >= 2,
        ;
        let input_buffer_bytes: u64 = x * y * 2 * pixel_bytes;
        let sampler_conversion = if has_yuyv_sampler {
            Some(format)
        } else {
            None
        };
        let mut bindings: Vec<u32> = Vec::new();
        bindings.push(IMAGE_BINDING);
        if request.has_camera_config {
            bindings.push(DISTORTION_BINDING);
            assert(bindings@ =~= seq![IMAGE_BINDING, DISTORTION_BINDING]);
        } else {
            assert(bindings@ =~= seq![IMAGE_BINDING]);
        }
        Pipeline {
            shader,
            input_image,
            output_image,
            input_buffer_bytes,
            sampler_conversion,
            bindings,
            has_correction: request.has_camera_config,
            capture: false,
            previous_upload_end: None,
            previous_frame_time: None,
        }
    }

    /// Run the pipeline
    ///
    /// Says what to do with a camera frame. Until the work is reported with
    /// [`Pipeline::upload_ended`], the pipeline has no image: earlier work is
    /// waited for and forgotten.
    pub fn maybe_postprocess(&mut self, frame: &FrameInfo) -> (step: FrameStep)
        requires
            old(self).previous_frame_time == Some(frame.frame_time) || old(self).frame_fits(
                *frame,
            ),
        ensures
            final(self).same_setup(*old(self)),
            (step, final(self).previous_upload_end) == frame_step_for(*old(self), *frame),
    {
        if let Some(time) = self.previous_frame_time {
            if time == frame.frame_time {
                return FrameStep::Skip;
            }
        }
        let wait_for = self.previous_upload_end;
        self.previous_upload_end = None;
        if frame.needs_postprocess {
            return FrameStep::Run { wait_for, work: FrameWork::Postprocess };
        }
        let mut usage = ImageUsage::none();
        usage.transfer_dst = true;
        usage.transfer_src = true;
        usage.sampled = true;
        let source = ImagePlan {
            format: Format::R8G8B8A8Unorm,
            width: frame.size.x * 2,
            height: frame.size.y,
            array_layers: 1,
            usage,
        };
        let x: u64 = frame.size.x as u64;
        let y: u64 = frame.size.y as u64;
        assert(0 <= x * 2 * y <= x * 2 * y * 4) by (nonlinear_arith);
        let length: usize = frame.frame.len();
        assert(x * 2 * y * 4 == length);
        let buffer_bytes: u64 = x * 2 * y * 4;
        let work = FrameWork::Blit {
            source,
            buffer_bytes,
            width: self.output_image.width,
            height: self.output_image.height,
        };
        FrameStep::Run { wait_for, work }
    }

    /// Takes note of the work that was handed to the graphics card for a frame.
    pub fn upload_ended(&mut self, upload: u64)
        ensures
            final(self).same_setup(*old(self)),
            final(self).previous_upload_end == Some(upload),
    {
        self.previous_upload_end = Some(upload);
    }

    /// Return the work to wait on for the post-processed image to be ready.
    ///
    /// There is some as soon as a frame was handed to
    /// [`Pipeline::maybe_postprocess`] and its work was reported.
    pub fn image(&self) -> (upload: u64)
        requires
            self.previous_upload_end is Some,
        ensures
            Some(upload) == self.previous_upload_end,
    {
        self.previous_upload_end.unwrap()
    }

    /// Width, height and depth of the post-processed image.
    pub fn image_extent(&self) -> (extent: [u32; 3])
        ensures
            extent@ == seq![self.output_image.width, self.output_image.height, 1u32],
    {
        let extent: [u32; 3] = [self.output_image.width, self.output_image.height, 1];
        assert(extent@ =~= seq![self.output_image.width, self.output_image.height, 1u32]);
        extent
    }
}

/// A finished image that is uploaded fills the image that it is uploaded to.
pub proof fn finished_frame_fills_its_image(frame: FrameInfo, output_image: ImagePlan)
    requires
        !frame.needs_postprocess,
        frame.frame@.len() == frame.size.x * 2 * frame.size.y * 4,
        frame.frame@.len() <= u64::MAX,
        frame.size.x * 2 <= u32::MAX,
    ensures
        work_for(frame, output_image) matches FrameWork::Blit { source, buffer_bytes, .. }
            && buffer_bytes == frame.frame@.len() && buffer_bytes == source.width * source.height
            * texel_bytes(source.format),
{
}

/// Iterations after which the search for an undistorted angle is given up.
pub const MAX_SEARCH_STEPS: u32 = 100;

/// What to do in one iteration of the search for the angle that the lens
/// distorts to a given one. The search is Newton's.
#[derive(Debug, Eq, PartialEq, Clone, Copy, Structural)]
pub enum SearchStep {
    /// Move along the tangent.
    Advance,
    /// The angle is found.
    Found,
    /// There is no telling.
    GiveUp,
}

/// What to do in an iteration of the search, given how many there were before
/// it, whether the tangent is level, and whether the angle is close enough. A
/// level tangent ends the search even where the angle would do.
pub open spec fn search_step_for(
    iterations: u32,
    level_tangent: bool,
    close_enough: bool,
) -> SearchStep {
    if iterations >= MAX_SEARCH_STEPS || level_tangent {
        SearchStep::GiveUp
    } else if close_enough {
        SearchStep::Found
    } else {
        SearchStep::Advance
    }
}

/// What to do in an iteration of the search.
pub fn search_step(iterations: u32, level_tangent: bool, close_enough: bool) -> (step: SearchStep)
    ensures
        step == search_step_for(iterations, level_tangent, close_enough),
{
    if iterations >= MAX_SEARCH_STEPS {
        return SearchStep::GiveUp;
    }
    if level_tangent {
        return SearchStep::GiveUp;
    }
    if close_enough {
        return SearchStep::Found;
    }
    SearchStep::Advance
}

/// How to scale the image in one direction.
#[derive(Debug, Eq, PartialEq, Clone, Copy, Structural)]
pub enum EdgeScale {
    /// Not at all: the edge of what the camera sees was not found, or is not in
    /// front of it.
    Unscaled,
    /// So that the edge of the image is the edge of what the camera sees.
    ToEdge,
}

/// How to scale the image in one direction: to the edge where there is one in front
/// of the camera.
pub open spec fn edge_scale_for(found: bool, right_angle_or_more: bool) -> EdgeScale {
    if found && !right_angle_or_more {
        EdgeScale::ToEdge
    } else {
        EdgeScale::Unscaled
    }
}

/// The image is scaled to the edge exactly where the edge was found and lies in front
/// of the camera.
pub proof fn only_edges_in_front_are_scaled_to(found: bool, right_angle_or_more: bool)
    ensures
        edge_scale_for(found, right_angle_or_more) == EdgeScale::ToEdge ==> found
            && !right_angle_or_more,
        edge_scale_for(found, right_angle_or_more) == EdgeScale::Unscaled ==> !found
            || right_angle_or_more,
{
}

/// How to scale the image in one direction, given whether the angle of the edge
/// was found, and whether it is a right angle or more.
pub fn edge_scale(found: bool, right_angle_or_more: bool) -> (scale: EdgeScale)
    ensures
        scale == edge_scale_for(found, right_angle_or_more),
{
    if found {
        if right_angle_or_more {
            EdgeScale::Unscaled
        } else {
            EdgeScale::ToEdge
        }
    } else {
        EdgeScale::Unscaled
    }
}

/// The program takes distortion out exactly where the calibration is known, which
/// is where the distortion parameters are bound. It converts YUYV exactly where the
/// camera delivers it and the sampler does not convert it.
pub proof fn program_does_what_is_left_to_it(pipeline: Pipeline, request: PipelineRequest)
    requires
        pipeline.is_fresh_for(request),
    ensures
        ({
            let undistorts = pipeline.shader is YuyvUndistort || pipeline.shader is Undistort;
            let converts = pipeline.shader is YuyvUndistort || pipeline.shader is Yuyv;
            let sampler = request.sampler;
            &&& undistorts <==> request.has_camera_config
            &&& undistorts <==> pipeline.bindings@.contains(2)
            &&& undistorts <==> pipeline.has_correction
            &&& converts <==> request.source_is_yuyv && !(sampler.conversion_extension
                && sampler.conversion_feature && sampler.midpoint_chroma)
            &&& pipeline.bindings@.len() > 0 && pipeline.bindings@[0] == 1
            &&& pipeline.bindings@.len() == (if undistorts {
                2nat
            } else {
                1nat
            })
        }),
{
    let bindings = pipeline.bindings@;
    if request.has_camera_config {
        assert(bindings[1] == 2);
    }
}

/// The sampler converts exactly where it can, from the format of the image that
/// frames are uploaded to. That image is of the YUYV format exactly where a YUYV
/// camera meets such a sampler, and of the plain one otherwise.
pub proof fn sampler_converts_where_it_can(pipeline: Pipeline, request: PipelineRequest)
    requires
        pipeline.is_fresh_for(request),
    ensures
        ({
            let sampler = request.sampler;
            let able = sampler.conversion_extension && sampler.conversion_feature
                && sampler.midpoint_chroma;
            &&& pipeline.sampler_conversion is Some <==> able
            &&& able ==> pipeline.sampler_conversion == Some(pipeline.input_image.format)
            &&& pipeline.input_image.format == Format::G8B8G8R8_422Unorm <==> able
                && request.source_is_yuyv
            &&& pipeline.input_image.format == Format::R8G8B8A8Unorm <==> !(able
                && request.source_is_yuyv)
        }),
{
}

/// Both images are as large as what they hold: the one that frames are uploaded to
/// takes a frame, four bytes for a pixel or two in the YUYV format, the finished one
/// takes both eyes side by side. The finished image can be used for all that was
/// asked for, and can be drawn and copied to as well.
pub proof fn images_hold_what_they_are_for(pipeline: Pipeline, request: PipelineRequest)
    requires
        request.fits(),
        pipeline.is_fresh_for(request),
    ensures
        ({
            let input = pipeline.input_image;
            let output = pipeline.output_image;
            let asked = request.output_usage;
            &&& pipeline.input_buffer_bytes == input.width * input.height * (if input.format
                == Format::G8B8G8R8_422Unorm {
                2int
            } else {
                4int
            })
            &&& pipeline.input_buffer_bytes == request.camera_size.x * request.camera_size.y * (
            if request.source_is_yuyv {
                4int
            } else {
                8int
            })
            &&& input.height == request.camera_size.y && input.array_layers == 1
            &&& input.usage.transfer_dst && input.usage.sampled && input.usage.transfer_src
                && input.usage.color_attachment && !input.usage.depth_stencil_attachment
            &&& output.format == Format::R8G8B8A8Unorm && output.array_layers == 1
            &&& output.width == request.render_size.x + request.render_size.x
            &&& output.height == request.render_size.y
            &&& output.usage.color_attachment && output.usage.transfer_dst
            &&& output.usage.transfer_src == asked.transfer_src
            &&& output.usage.sampled == asked.sampled
            &&& output.usage.depth_stencil_attachment == asked.depth_stencil_attachment
            &&& !pipeline.capture && pipeline.previous_upload_end is None
                && pipeline.previous_frame_time is None
        }),
{
    frame_fills_the_input_image(request);
    let x = request.camera_size.x as int;
    let y = request.camera_size.y as int;
    assert(x * y * 2 * 2 == x * y * 4) by (nonlinear_arith);
    assert(x * y * 2 * 4 == x * y * 8) by (nonlinear_arith);
}

/// A raw frame goes through the pipeline. A finished one is uploaded as it is, both
/// eyes side by side, and stretched over all of the output image.
pub proof fn finished_frames_are_stretched(frame: FrameInfo, output: ImagePlan)
    requires
        frame.size.x * 2 <= u32::MAX,
        frame.size.x * 2 * frame.size.y * 4 <= u64::MAX,
    ensures
        frame.needs_postprocess <==> work_for(frame, output) is Postprocess,
        work_for(frame, output) matches FrameWork::Blit { source, buffer_bytes, width, height }
            ==> {
            &&& width == output.width && height == output.height
            &&& source.width == frame.size.x + frame.size.x && source.height == frame.size.y
            &&& buffer_bytes == source.width * source.height * 4
            &&& source.format == Format::R8G8B8A8Unorm && source.array_layers == 1
            &&& source.usage.transfer_dst && source.usage.transfer_src && source.usage.sampled
            &&& !source.usage.color_attachment && !source.usage.depth_stencil_attachment
        },
{
}

/// The search for an angle ends after a hundred iterations at the latest, and at
/// once where the tangent is level. Until then it goes on exactly as long as the
/// angle is not close enough.
pub proof fn search_comes_to_an_end(iterations: u32, level_tangent: bool, close_enough: bool)
    ensures
        ({
            let step = search_step_for(iterations, level_tangent, close_enough);
            &&& step == SearchStep::GiveUp <==> iterations >= 100 || level_tangent
            &&& step == SearchStep::Advance ==> !close_enough
            &&& step == SearchStep::Found ==> close_enough
        }),
{
}

} // verus!
