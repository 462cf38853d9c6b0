//! Optical media.
pub mod material;
