//! Verified core of the SDOF dynamics explorer: colour palettes and themes,
//! the camera-control state machine of the 3D viewport, parameter hashing,
//! number and SVG text handling, PNG logo decoding and the equation cache.

pub mod color;
pub mod text;
pub mod fnv;
pub mod camera;
pub mod theme;
pub mod response;
pub mod drawing;
pub mod latex_cache;
pub mod png_image;
pub mod sampling;
pub mod keyed_cache;
