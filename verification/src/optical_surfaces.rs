//! Surface records as a lens prescription lists them.
pub mod optical_surfaces;
