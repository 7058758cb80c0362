//! An application that shows a turning cube, in the headset and in a window on
//! the desktop.
pub mod extensions;
pub mod render;
pub mod session;
pub mod window;
