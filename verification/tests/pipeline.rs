use xr_passthrough::pipeline::{
    edge_scale, search_step, EdgeScale, FragmentShader, FrameStep, FrameWork, Pipeline,
    PipelineRequest, SamplerSupport, SearchStep,
};
use xr_passthrough::vulkan::{Format, ImagePlan, ImageUsage};
use xr_passthrough::{FrameInfo, UVec2};

const PLAIN: SamplerSupport =
    SamplerSupport { conversion_extension: false, conversion_feature: false, midpoint_chroma: false };
const CONVERTING: SamplerSupport =
    SamplerSupport { conversion_extension: true, conversion_feature: true, midpoint_chroma: true };

fn request(sampler: SamplerSupport, source_is_yuyv: bool, has_camera_config: bool) -> PipelineRequest {
    let mut output_usage = ImageUsage::none();
    output_usage.sampled = true;
    PipelineRequest {
        sampler,
        source_is_yuyv,
        has_camera_config,
        output_usage,
        camera_size: UVec2::new(8, 6),
        render_size: UVec2::new(100, 50),
    }
}

#[test]
fn sampler_converts_only_with_full_support() {
    assert!(CONVERTING.needs_lookup());
    assert!(CONVERTING.converts_yuyv());
    let no_feature = SamplerSupport { conversion_feature: false, ..CONVERTING };
    assert!(!no_feature.needs_lookup());
    assert!(!no_feature.converts_yuyv());
    let no_extension = SamplerSupport { conversion_extension: false, ..CONVERTING };
    assert!(!no_extension.needs_lookup());
    let no_midpoint = SamplerSupport { midpoint_chroma: false, ..CONVERTING };
    assert!(no_midpoint.needs_lookup());
    assert!(!no_midpoint.converts_yuyv());
}

#[test]
fn shader_does_what_the_sampler_does_not() {
    assert_eq!(Pipeline::load_shader(true, true, false), FragmentShader::YuyvUndistort);
    assert_eq!(Pipeline::load_shader(true, false, false), FragmentShader::Yuyv);
    assert_eq!(Pipeline::load_shader(true, true, true), FragmentShader::Undistort);
    assert_eq!(Pipeline::load_shader(true, false, true), FragmentShader::Unprocessed);
    assert_eq!(Pipeline::load_shader(false, true, false), FragmentShader::Undistort);
    assert_eq!(Pipeline::load_shader(false, false, true), FragmentShader::Unprocessed);
}

#[test]
fn raw_yuyv_takes_half_the_width() {
    let pipeline = Pipeline::new(request(PLAIN, true, true));
    assert_eq!(pipeline.shader, FragmentShader::YuyvUndistort);
    assert_eq!(pipeline.input_image.format, Format::R8G8B8A8Unorm);
    assert_eq!((pipeline.input_image.width, pipeline.input_image.height), (8, 6));
    assert_eq!(pipeline.input_buffer_bytes, 192);
    assert_eq!(pipeline.sampler_conversion, None);
    assert_eq!(pipeline.bindings, vec![1, 2]);
    assert!(pipeline.has_correction);
}

#[test]
fn converted_yuyv_takes_the_full_width() {
    let pipeline = Pipeline::new(request(CONVERTING, true, false));
    assert_eq!(pipeline.shader, FragmentShader::Unprocessed);
    assert_eq!(pipeline.input_image.format, Format::G8B8G8R8_422Unorm);
    assert_eq!((pipeline.input_image.width, pipeline.input_image.height), (16, 6));
    assert_eq!(pipeline.input_buffer_bytes, 192);
    assert_eq!(pipeline.sampler_conversion, Some(Format::G8B8G8R8_422Unorm));
    assert_eq!(pipeline.bindings, vec![1]);
    assert!(!pipeline.has_correction);
}

#[test]
fn four_channel_frames_take_twice_the_bytes() {
    let pipeline = Pipeline::new(request(CONVERTING, false, false));
    assert_eq!(pipeline.input_image.format, Format::R8G8B8A8Unorm);
    assert_eq!((pipeline.input_image.width, pipeline.input_image.height), (16, 6));
    assert_eq!(pipeline.input_buffer_bytes, 384);
    assert_eq!(pipeline.sampler_conversion, Some(Format::R8G8B8A8Unorm));
}

#[test]
fn finished_image_holds_both_eyes() {
    let pipeline = Pipeline::new(request(PLAIN, true, false));
    assert_eq!(
        pipeline.output_image,
        ImagePlan {
            format: Format::R8G8B8A8Unorm,
            width: 200,
            height: 50,
            array_layers: 1,
            usage: ImageUsage {
                transfer_src: false,
                transfer_dst: true,
                sampled: true,
                color_attachment: true,
                depth_stencil_attachment: false,
            },
        }
    );
    assert_eq!(pipeline.image_extent(), [200, 50, 1]);
    assert!(!pipeline.capture);
}

fn frame(bytes: usize, frame_time: u64, needs_postprocess: bool) -> FrameInfo {
    FrameInfo { frame: vec![0; bytes], frame_time, size: UVec2::new(4, 3), needs_postprocess }
}

#[test]
fn camera_frames_run_through_the_pipeline() {
    let mut pipeline = Pipeline::new(request(PLAIN, true, true));
    let step = pipeline.maybe_postprocess(&frame(192, 1, true));
    assert_eq!(step, FrameStep::Run { wait_for: None, work: FrameWork::Postprocess });
    pipeline.upload_ended(5);
    assert_eq!(pipeline.image(), 5);
    let step = pipeline.maybe_postprocess(&frame(192, 2, true));
    assert_eq!(step, FrameStep::Run { wait_for: Some(5), work: FrameWork::Postprocess });
    assert_eq!(pipeline.previous_upload_end, None);
    pipeline.upload_ended(6);
    assert_eq!(pipeline.image(), 6);
}

#[test]
fn finished_frames_are_stretched_over_the_image() {
    let mut pipeline = Pipeline::new(request(PLAIN, true, true));
    let step = pipeline.maybe_postprocess(&frame(96, 1, false));
    let source = ImagePlan {
        format: Format::R8G8B8A8Unorm,
        width: 8,
        height: 3,
        array_layers: 1,
        usage: ImageUsage {
            transfer_src: true,
            transfer_dst: true,
            sampled: true,
            color_attachment: false,
            depth_stencil_attachment: false,
        },
    };
    let work = FrameWork::Blit { source, buffer_bytes: 96, width: 200, height: 50 };
    assert_eq!(step, FrameStep::Run { wait_for: None, work });
}

#[test]
fn frame_that_is_marked_as_shown_is_skipped() {
    let mut pipeline = Pipeline::new(request(PLAIN, true, true));
    pipeline.upload_ended(5);
    pipeline.previous_frame_time = Some(7);
    assert_eq!(pipeline.maybe_postprocess(&frame(0, 7, true)), FrameStep::Skip);
    assert_eq!(pipeline.image(), 5);
}

#[test]
fn search_stops_when_it_has_to() {
    assert_eq!(search_step(0, false, false), SearchStep::Advance);
    assert_eq!(search_step(99, false, false), SearchStep::Advance);
    assert_eq!(search_step(100, false, false), SearchStep::GiveUp);
    assert_eq!(search_step(3, false, true), SearchStep::Found);
    assert_eq!(search_step(3, true, true), SearchStep::GiveUp);
}

#[test]
fn image_is_scaled_only_to_an_edge_in_front() {
    assert_eq!(edge_scale(true, false), EdgeScale::ToEdge);
    assert_eq!(edge_scale(true, true), EdgeScale::Unscaled);
    assert_eq!(edge_scale(false, false), EdgeScale::Unscaled);
}
