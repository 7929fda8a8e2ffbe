//! The SOG splat container: a zip archive holding a JSON header and
//! quantised WebP images, one pixel per splat.
pub mod error;
pub mod archive;
pub mod pixels;
pub mod layout;
pub mod decode;
