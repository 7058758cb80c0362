//! The OpenXR API layer: what it does to sessions and frames on their way
//! between an application and the runtime.
pub mod camera;
pub mod create;
pub mod end_frame;
pub mod entry;
pub mod frame;
pub mod laws;
pub mod session;
