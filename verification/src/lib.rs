//! Sequential ray tracing over fixed-point coordinates.
//!
//! Points, vectors and rays are built from [`scalar::Scalar`], a fixed-point
//! number with a not-a-number value. A ray is marched through an ordered list
//! of plane and sphere surfaces; every step is specified by a spec function
//! of the same shape as the computation.
pub mod geometry;
pub mod materials;
pub mod optical_surfaces;
pub mod optical_system;
pub mod scalar;
