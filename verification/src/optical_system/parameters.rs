//! Field definitions of a sequential system.
use crate::scalar::Scalar;
use vstd::prelude::*;

verus! {

/// How a field point is given.
pub enum FieldType {
    AngleDeg,
    ObjectHeight,
    ParaxImageHeight,
    RealImageHeight,
}

/// How field coordinates are normalized.
pub enum FieldNormalization {
    RADIAL,
}

/// One field point with its weight and vignetting factors.
pub struct FieldRaw {
    pub field_type: FieldType,
    pub xfield: Scalar,
    pub yfield: Scalar,
    pub weight: Scalar,
    pub vdy: Scalar,
    pub vcx: Scalar,
    pub vcy: Scalar,
    pub van: Scalar,
}

/// The field points of a system.
pub struct FieldData {
    pub rows: Vec<FieldRaw>,
}

/// What a sequential system is configured with besides its surfaces.
pub struct SequentialParameters {
    pub field_data: FieldData,
    pub name: String,
}

} // verus!
