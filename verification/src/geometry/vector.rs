//! Three-component vectors.
use crate::scalar::Scalar;
use vstd::prelude::*;
use vstd::std_specs::ops::AddSpecImpl;
use vstd::std_specs::ops::DivSpecImpl;
use vstd::std_specs::ops::MulSpecImpl;
use vstd::std_specs::ops::NegSpecImpl;
use vstd::std_specs::ops::SubSpecImpl;

verus! {

/// A displacement or direction in space.
#[derive(Clone, Copy, Debug, PartialEq, Eq, Structural)]
pub struct Vector3 {
    pub x: Scalar,
    pub y: Scalar,
    pub z: Scalar,
}

/// Whether three axis indices name each axis exactly once.
pub open spec fn is_axis_permutation(xi: usize, yi: usize, zi: usize) -> bool {
    xi < 3 && yi < 3 && zi < 3 && xi != yi && yi != zi && xi != zi
}

pub fn zero_vector() -> (r: Vector3)
    ensures
        r == Vector3::zero_spec(),
{
    Vector3 { x: Scalar::zero(), y: Scalar::zero(), z: Scalar::zero() }
}

impl Vector3 {
    pub open spec fn zero_spec() -> Vector3 {
        Vector3 { x: Scalar::of_int(0), y: Scalar::of_int(0), z: Scalar::of_int(0) }
    }

    /// The component on axis `i`: x for 0, y for 1, z for 2.
    pub open spec fn component(self, i: int) -> Scalar {
        if i == 0 {
            self.x
        } else if i == 1 {
            self.y
        } else {
            self.z
        }
    }

    /// Whether every component is a number.
    pub open spec fn is_finite(self) -> bool {
        self.x.is_finite() && self.y.is_finite() && self.z.is_finite()
    }

    pub open spec fn plus(self, rhs: Vector3) -> Vector3 {
        Vector3 { x: self.x.plus(rhs.x), y: self.y.plus(rhs.y), z: self.z.plus(rhs.z) }
    }

    pub open spec fn minus(self, rhs: Vector3) -> Vector3 {
        Vector3 { x: self.x.minus(rhs.x), y: self.y.minus(rhs.y), z: self.z.minus(rhs.z) }
    }

    pub open spec fn negated(self) -> Vector3 {
        Vector3 { x: self.x.negated(), y: self.y.negated(), z: self.z.negated() }
    }

    pub open spec fn times(self, s: Scalar) -> Vector3 {
        Vector3 { x: self.x.times(s), y: self.y.times(s), z: self.z.times(s) }
    }

    /// Every component divided by `s`; not a number throughout when `s` is
    /// zero.
    pub open spec fn over(self, s: Scalar) -> Vector3 {
        Vector3 { x: self.x.over(s), y: self.y.over(s), z: self.z.over(s) }
    }

    pub open spec fn abs_spec(self) -> Vector3 {
        Vector3 { x: self.x.abs_spec(), y: self.y.abs_spec(), z: self.z.abs_spec() }
    }

    pub open spec fn dot_spec(self, rhs: Vector3) -> Scalar {
        self.x.times(rhs.x).plus(self.y.times(rhs.y)).plus(self.z.times(rhs.z))
    }

    pub open spec fn cross_spec(self, rhs: Vector3) -> Vector3 {
        Vector3 {
            x: self.y.times(rhs.z).minus(self.z.times(rhs.y)),
            y: self.z.times(rhs.x).minus(self.x.times(rhs.z)),
            z: self.x.times(rhs.y).minus(self.y.times(rhs.x)),
        }
    }

    /// The Euclidean length: the root of the sum of the squared components.
    pub open spec fn norm_spec(self) -> Scalar {
        self.dot_spec(self).sqrt_spec()
    }

    /// The vector divided by its own length.
    pub open spec fn normalized(self) -> Vector3 {
        self.over(self.norm_spec())
    }

    pub open spec fn min_component_spec(self) -> Scalar {
        self.x.min_spec(self.y).min_spec(self.z)
    }

    pub open spec fn max_component_spec(self) -> Scalar {
        self.x.max_spec(self.y).max_spec(self.z)
    }

    /// The first axis whose component no later one exceeds.
    pub open spec fn max_dimension_spec(self) -> usize {
        if self.x.lt_spec(self.y) {
            if self.y.lt_spec(self.z) {
                2
            } else {
                1
            }
        } else if self.x.lt_spec(self.z) {
            2
        } else {
            0
        }
    }

    pub open spec fn min_with(self, rhs: Vector3) -> Vector3 {
        Vector3 {
            x: self.x.min_spec(rhs.x),
            y: self.y.min_spec(rhs.y),
            z: self.z.min_spec(rhs.z),
        }
    }

    pub open spec fn permuted(self, xi: usize, yi: usize, zi: usize) -> Vector3 {
        Vector3 {
            x: self.component(xi as int),
            y: self.component(yi as int),
            z: self.component(zi as int),
        }
    }

    /// An orthonormal basis whose first axis is the direction of `self`.
    ///
    /// The second axis is built from whichever of x and y has the larger
    /// magnitude in the normalized vector, the third is the cross product of
    /// the first two.
    pub open spec fn basis_spec(self) -> (Vector3, Vector3, Vector3) {
        let v1 = self.normalized();
        let zero = Scalar::of_int(0);
        let v2 = if v1.y.abs_spec().lt_spec(v1.x.abs_spec()) {
            (Vector3 { x: v1.z.negated(), y: zero, z: v1.x }).over(
                v1.x.times(v1.x).plus(v1.z.times(v1.z)).sqrt_spec(),
            )
        } else {
            (Vector3 { x: zero, y: v1.z, z: v1.y.negated() }).over(
                v1.y.times(v1.y).plus(v1.z.times(v1.z)).sqrt_spec(),
            )
        };
        (v1, v2, v1.cross_spec(v2))
    }

    pub fn unit_x() -> (r: Vector3)
        ensures
            r == (Vector3 { x: Scalar::of_int(1), y: Scalar::of_int(0), z: Scalar::of_int(0) }),
    {
        Vector3 { x: Scalar::one(), y: Scalar::zero(), z: Scalar::zero() }
    }

    pub fn unit_y() -> (r: Vector3)
        ensures
            r == (Vector3 { x: Scalar::of_int(0), y: Scalar::of_int(1), z: Scalar::of_int(0) }),
    {
        Vector3 { x: Scalar::zero(), y: Scalar::one(), z: Scalar::zero() }
    }

    pub fn unit_z() -> (r: Vector3)
        ensures
            r == (Vector3 { x: Scalar::of_int(0), y: Scalar::of_int(0), z: Scalar::of_int(1) }),
    {
        Vector3 { x: Scalar::zero(), y: Scalar::zero(), z: Scalar::one() }
    }

    pub fn len(&self) -> (r: Scalar)
        ensures
            r == self.norm_spec(),
    {
        self.norm()
    }

    pub fn abs(&self) -> (r: Vector3)
        ensures
            r == self.abs_spec(),
    {
        Vector3 { x: self.x.abs(), y: self.y.abs(), z: self.z.abs() }
    }

    pub fn dot(&self, rhs: Vector3) -> (r: Scalar)
        ensures
            r == self.dot_spec(rhs),
    {
        self.x * rhs.x + self.y * rhs.y + self.z * rhs.z
    }

    pub fn abs_dot(&self, rhs: Vector3) -> (r: Scalar)
        ensures
            r == self.dot_spec(rhs).abs_spec(),
    {
        self.dot(rhs).abs()
    }

    pub fn cross_product(&self, rhs: Vector3) -> (r: Vector3)
        ensures
            r == self.cross_spec(rhs),
    {
        Vector3 {
            x: self.y * rhs.z - self.z * rhs.y,
            y: self.z * rhs.x - self.x * rhs.z,
            z: self.x * rhs.y - self.y * rhs.x,
        }
    }

    pub fn norm(&self) -> (r: Scalar)
        ensures
            r == self.norm_spec(),
    {
        (self.x * self.x + self.y * self.y + self.z * self.z).sqrt()
    }

    /// Divides the vector by its length in place. A vector of length zero
    /// becomes not-a-number in every component.
    pub fn normalize(&mut self) -> (r: &mut Vector3)
        ensures
            *r == old(self).normalized(),
            *final(self) == *final(r),
    {
        let norm = self.norm();
        self.x = self.x / norm;
        self.y = self.y / norm;
        self.z = self.z / norm;
        self
    }

    pub fn clone_normalized(&self) -> (r: Vector3)
        ensures
            r == self.normalized(),
    {
        self.scaled_down(self.norm())
    }

    /// Divides every component by `s`, giving not-a-number for a zero `s`.
    fn scaled_down(&self, s: Scalar) -> (r: Vector3)
        ensures
            r == self.over(s),
    {
        Vector3 { x: self.x / s, y: self.y / s, z: self.z / s }
    }

    pub fn build_coordinate_system(&self) -> (r: (Vector3, Vector3, Vector3))
        ensures
            r == self.basis_spec(),
    {
        let v1 = self.clone_normalized();
        let v2 = if v1.x.abs().gt(v1.y.abs()) {
            let norm_value = (v1.x * v1.x + v1.z * v1.z).sqrt();
            (Vector3 { x: core::ops::Neg::neg(v1.z), y: Scalar::zero(), z: v1.x }).scaled_down(norm_value)
        } else {
            let norm_value = (v1.y * v1.y + v1.z * v1.z).sqrt();
            (Vector3 { x: Scalar::zero(), y: v1.z, z: core::ops::Neg::neg(v1.y) }).scaled_down(norm_value)
        };
        let v3 = v1.cross_product(v2);
        (v1, v2, v3)
    }

    pub fn min_component(&self) -> (r: Scalar)
        ensures
            r == self.min_component_spec(),
    {
        self.x.min(self.y).min(self.z)
    }

    pub fn max_component(&self) -> (r: Scalar)
        ensures
            r == self.max_component_spec(),
    {
        self.x.max(self.y).max(self.z)
    }

    /// The axis of the largest component; of equal ones, the first.
    pub fn max_dimension(&self) -> (r: usize)
        ensures
            r == self.max_dimension_spec(),
            r < 3,
            self.is_finite() ==> forall|j: int|
                0 <= j < 3 ==> self.component(j).raw <= self.component(r as int).raw,
            self.is_finite() ==> forall|j: int|
                0 <= j < r ==> self.component(j).raw < self.component(r as int).raw,
    {
        let mut max = self.x;
        let mut max_index: usize = 0;
        if self.y.gt(max) {
            max = self.y;
            max_index = 1;
        }
        if self.z.gt(max) {
            max_index = 2;
        }
        max_index
    }

    pub fn comonent_wise_min(&self, vec: Vector3) -> (r: Vector3)
        ensures
            r == self.min_with(vec),
    {
        Vector3 { x: self.x.min(vec.x), y: self.y.min(vec.y), z: self.z.min(vec.z) }
    }

    /// The vector with its components rearranged: the new x is the old
    /// component `xi`, and so on.
    pub fn permute(&self, xi: usize, yi: usize, zi: usize) -> (r: Vector3)
        requires
            is_axis_permutation(xi, yi, zi),
        ensures
            r == self.permuted(xi, yi, zi),
    {
        if xi == yi || yi == zi || xi == zi {
            vstd::pervasive::unreached()
        } else {
            Vector3 { x: self[xi], y: self[yi], z: self[zi] }
        }
    }
}

impl core::ops::Index<usize> for Vector3 {
    type Output = Scalar;

    fn index(&self, ind: usize) -> (r: &Scalar)
        ensures
            *r == self.component(ind as int),
    {
        if ind == 0 {
            &self.x
        } else if ind == 1 {
            &self.y
        } else if ind == 2 {
            &self.z
        } else {
            vstd::pervasive::unreached()
        }
    }
}

impl vstd::std_specs::core::IndexSpecImpl<usize> for Vector3 {
    open spec fn index_req(&self, index: &usize) -> bool {
        *index < 3
    }
}

impl core::ops::Add<Vector3> for Vector3 {
    type Output = Vector3;

    fn add(self, rhs: Vector3) -> (r: Vector3) {
        Vector3 { x: self.x + rhs.x, y: self.y + rhs.y, z: self.z + rhs.z }
    }
}

impl AddSpecImpl<Vector3> for Vector3 {
    open spec fn obeys_add_spec() -> bool {
        true
    }

    open spec fn add_req(self, rhs: Vector3) -> bool {
        true
    }

    open spec fn add_spec(self, rhs: Vector3) -> Vector3 {
        self.plus(rhs)
    }
}

impl core::ops::Neg for Vector3 {
    type Output = Vector3;

    fn neg(self) -> (r: Vector3) {
        Vector3 {
            x: core::ops::Neg::neg(self.x),
            y: core::ops::Neg::neg(self.y),
            z: core::ops::Neg::neg(self.z),
        }
    }
}

impl NegSpecImpl for Vector3 {
    open spec fn obeys_neg_spec() -> bool {
        true
    }

    open spec fn neg_req(self) -> bool {
        true
    }

    open spec fn neg_spec(self) -> Vector3 {
        self.negated()
    }
}

impl core::ops::Sub<Vector3> for Vector3 {
    type Output = Vector3;

    fn sub(self, rhs: Vector3) -> (r: Vector3) {
        Vector3 { x: self.x - rhs.x, y: self.y - rhs.y, z: self.z - rhs.z }
    }
}

impl SubSpecImpl<Vector3> for Vector3 {
    open spec fn obeys_sub_spec() -> bool {
        true
    }

    open spec fn sub_req(self, rhs: Vector3) -> bool {
        true
    }

    open spec fn sub_spec(self, rhs: Vector3) -> Vector3 {
        self.minus(rhs)
    }
}

impl core::ops::Mul<Scalar> for Vector3 {
    type Output = Vector3;

    fn mul(self, rhs: Scalar) -> (r: Vector3) {
        Vector3 { x: self.x * rhs, y: self.y * rhs, z: self.z * rhs }
    }
}

impl MulSpecImpl<Scalar> for Vector3 {
    open spec fn obeys_mul_spec() -> bool {
        true
    }

    open spec fn mul_req(self, rhs: Scalar) -> bool {
        true
    }

    open spec fn mul_spec(self, rhs: Scalar) -> Vector3 {
        self.times(rhs)
    }
}

/// Division by a scalar. Dividing by exactly zero is a caller's error and is
/// ruled out by the precondition.
impl core::ops::Div<Scalar> for Vector3 {
    type Output = Vector3;

    fn div(self, rhs: Scalar) -> (r: Vector3) {
        if rhs.raw == 0 {
            vstd::pervasive::unreached()
        } else {
            self.scaled_down(rhs)
        }
    }
}

impl DivSpecImpl<Scalar> for Vector3 {
    open spec fn obeys_div_spec() -> bool {
        true
    }

    open spec fn div_req(self, rhs: Scalar) -> bool {
        rhs.raw != 0
    }

    open spec fn div_spec(self, rhs: Scalar) -> Vector3 {
        self.over(rhs)
    }
}

/// The cross product changes sign when its operands are exchanged.
pub proof fn lemma_cross_anticommutative(a: Vector3, b: Vector3)
    ensures
        a.cross_spec(b) == b.cross_spec(a).negated(),
{
    lemma_times_commutes(a.y, b.z);
    lemma_times_commutes(a.z, b.y);
    lemma_times_commutes(a.z, b.x);
    lemma_times_commutes(a.x, b.z);
    lemma_times_commutes(a.x, b.y);
    lemma_times_commutes(a.y, b.x);
}

/// The rounded product does not depend on the order of its factors.
pub proof fn lemma_times_commutes(a: Scalar, b: Scalar)
    ensures
        a.times(b) == b.times(a),
{
    assert(a.raw * b.raw == b.raw * a.raw) by (nonlinear_arith);
}

/// A vector whose length is zero has no direction: normalizing it gives
/// not-a-number in every component.
pub proof fn lemma_normalized_zero_length(v: Vector3)
    requires
        v.norm_spec().raw == 0,
    ensures
        !v.normalized().x.is_finite(),
        !v.normalized().y.is_finite(),
        !v.normalized().z.is_finite(),
{
}

} // verus!
