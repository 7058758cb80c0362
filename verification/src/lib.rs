//! Camera passthrough for the Valve Index in OpenXR applications.
//!
//! The library decides; it does not touch the runtime, the graphics driver, the
//! file system or any device. Each decision is a function from plain values to
//! plain values, and where one alternates with outside work it is a small state
//! machine: it says what to do next, and is told how that went.
use vstd::prelude::*;

pub mod api_layer;
pub mod bytes;
pub mod config;
pub mod device;
pub mod headset;
pub mod hello;
pub mod pipeline;
pub mod setup;
pub mod setup_steps;
pub mod signature;
pub mod steam;
pub mod vulkan;
pub mod xr;

pub use device::find_index_camera;
pub use vulkan::UVec2;

verus! {

/// Camera image will be (size * 2, size)
pub const CAMERA_SIZE: u32 = 960;

/// A frame of the camera.
#[derive(Debug)]
pub struct FrameInfo {
    /// Its bytes.
    pub frame: Vec<u8>,
    /// When it was taken, counted in some unit from some start.
    pub frame_time: u64,
    /// Size of the image of one of the two cameras.
    pub size: UVec2,
    /// Whether it is raw camera output, or already a finished image.
    pub needs_postprocess: bool,
}

} // verus!
