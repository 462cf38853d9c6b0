//! The sequential optical system and the trace through it.
pub mod parameters;
pub mod sequential_optical_system;
pub mod tracing;
