//! Re-exported types and traits for convenience.

pub use crate::formats::rgba::{Rgba, Rgba8888, RgbaFormat};
pub use crate::pixel::{Format, Pixel};
