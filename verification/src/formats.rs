//! The pixel formats that this crate knows.

pub mod rgba;
