//! Media and their refractive indices.
use crate::scalar::Scalar;
use vstd::prelude::*;

verus! {

/// A medium that light passes through.
pub trait Material {
    fn name(&self) -> &str;

    /// The refractive index at a wavelength.
    fn refraction_index_at(&self, wavelength: Scalar) -> Scalar;
}

/// Air. Its refractive index is the same at every wavelength; the default is
/// one.
pub struct Air {
    refraction_index: Scalar,
    name: String,
}

impl Air {
    pub closed spec fn index_spec(&self) -> Scalar {
        self.refraction_index
    }

    pub closed spec fn name_spec(&self) -> Seq<char> {
        self.name@
    }
}

impl Default for Air {
    fn default() -> (r: Air)
        ensures
            r.index_spec() == Scalar::of_int(1),
            r.name_spec() == "air"@,
    {
        Air { refraction_index: Scalar::one(), name: "air".to_owned() }
    }
}

/// A glass, known by its catalogue name. No dispersion data is attached to
/// it: its index is one at every wavelength.
pub struct Glass {
    pub name: String,
}

impl Material for Glass {
    fn name(&self) -> (r: &str)
        ensures
            r@ == self.name@,
    {
        self.name.as_str()
    }

    fn refraction_index_at(&self, wavelength: Scalar) -> (r: Scalar)
        ensures
            r == Scalar::of_int(1),
    {
        Scalar::one()
    }
}

impl Material for Air {
    fn name(&self) -> (r: &str)
        ensures
            r@ == self.name_spec(),
    {
        self.name.as_str()
    }

    fn refraction_index_at(&self, wavelength: Scalar) -> (r: Scalar)
        ensures
            r == self.index_spec(),
    {
        self.refraction_index
    }
}

} // verus!
