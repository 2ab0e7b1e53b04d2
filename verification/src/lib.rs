//! Type-safe pixel formats over packed storage values.
//!
//! A [`pixel::Pixel`] binds a raw storage value (a packed 32-bit integer, or
//! four 32-bit float slots) to a format that names its channels. Every
//! accessor is stated over the sequence of channels that the storage value
//! holds, so a write to one channel provably leaves the others alone.

pub mod formats;
pub mod pixel;
pub mod prelude;
pub mod uint;

pub(crate) mod internal;
