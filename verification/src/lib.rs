//! CPU-side logic of an image window library: pixel-format conversion to
//! RGBA8, mipmap generation, a per-device mouse cache and the mapping of
//! windowing-system events onto the library's own event types.

pub mod image;
pub mod mipmap;
pub mod outside;
pub mod event;
pub mod mouse;
