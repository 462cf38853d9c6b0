//! Fixed-point scalars with a not-a-number value.
//!
//! A [`Scalar`] stores a signed count of billionths. One bit pattern is set
//! aside for "not a number": it is what every operation returns when the
//! exact result cannot be represented, and it propagates through arithmetic.
//! Products and quotients are rounded toward negative infinity, so the sign
//! of a rounded result never contradicts the sign of the exact one.
use vstd::prelude::*;
use vstd::std_specs::ops::AddSpecImpl;
use vstd::std_specs::ops::DivSpecImpl;
use vstd::std_specs::ops::MulSpecImpl;
use vstd::std_specs::ops::NegSpecImpl;
use vstd::std_specs::ops::SubSpecImpl;

verus! {

/// Raw units per whole unit.
pub const SCALE: i64 = 1_000_000_000;

/// The raw value that encodes "not a number".
pub const NAN_RAW: i64 = i64::MIN;

/// Largest magnitude of a finite raw value.
pub const MAX_RAW: i64 = i64::MAX;

/// A fixed-point number: `raw / SCALE`, or not-a-number when `raw == NAN_RAW`.
///
/// Equality is equality of the raw values, so not-a-number equals itself.
/// The ordering methods are false whenever a side is not a number.
#[derive(Clone, Copy, Debug, PartialEq, Eq, Structural)]
pub struct Scalar {
    pub raw: i64,
}

/// Quotient rounded toward negative infinity, for any non-zero divisor.
pub open spec fn floor_quotient(n: int, d: int) -> int {
    if d > 0 {
        n / d
    } else {
        (-n) / (-d)
    }
}

/// The largest `r` with `r * r <= n`.
pub open spec fn int_sqrt(n: nat) -> nat
    decreases n,
{
    if n == 0 {
        0
    } else {
        let r = int_sqrt((n - 1) as nat);
        if (r + 1) * (r + 1) <= n {
            r + 1
        } else {
            r
        }
    }
}

/// `int_sqrt(n)` squared does not exceed `n`, and the next square does.
pub proof fn lemma_int_sqrt_bounds(n: nat)
    ensures
        int_sqrt(n) * int_sqrt(n) <= n,
        n < (int_sqrt(n) + 1) * (int_sqrt(n) + 1),
    decreases n,
{
    if n == 0 {
        assert(int_sqrt(n) == 0);
        assert(0 * 0 == 0 && (0 + 1) * (0 + 1) == 1) by (nonlinear_arith);
    } else {
        let m = (n - 1) as nat;
        lemma_int_sqrt_bounds(m);
        let r = int_sqrt(m);
        if (r + 1) * (r + 1) <= n {
            assert(int_sqrt(n) == r + 1);
            assert((r + 1 + 1) * (r + 1 + 1) > (r + 1) * (r + 1)) by (nonlinear_arith);
        } else {
            assert(int_sqrt(n) == r);
        }
    }
}

/// Only one natural number lies between the bounds that `int_sqrt` meets.
pub proof fn lemma_int_sqrt_unique(n: nat, r: nat)
    requires
        r * r <= n,
        n < (r + 1) * (r + 1),
    ensures
        r == int_sqrt(n),
{
    lemma_int_sqrt_bounds(n);
    let s = int_sqrt(n);
    if r < s {
        assert((r + 1) * (r + 1) <= s * s) by (nonlinear_arith)
            requires
                r + 1 <= s,
        ;
    } else if s < r {
        assert((s + 1) * (s + 1) <= r * r) by (nonlinear_arith)
            requires
                s + 1 <= r,
        ;
    }
}

/// The root of a value that a scalar can hold fits in a scalar.
pub proof fn lemma_int_sqrt_fits(raw: int)
    requires
        0 <= raw <= MAX_RAW,
    ensures
        int_sqrt((raw * SCALE) as nat) < 0x1_0000_0000_0000,
{
    let n = (raw * SCALE) as nat;
    let r = int_sqrt(n);
    lemma_int_sqrt_bounds(n);
    lemma_product_bound(raw, SCALE as int, MAX_RAW as int);
    if r >= 0x1_0000_0000_0000 {
        assert(r * r >= 0x1_0000_0000_0000 * 0x1_0000_0000_0000) by (nonlinear_arith)
            requires
                r >= 0x1_0000_0000_0000,
        ;
    }
}

/// Floored division by `num::integer::div_floor`. For a positive divisor the
/// crate subtracts one from the truncated quotient exactly when the
/// remainder is negative, which is the Euclidean quotient.
#[verifier::external_body]
fn div_floor_i128(n: i128, d: i128) -> (q: i128)
    requires
        d > 0,
    ensures
        q == n / d,
{
    num::integer::div_floor(n, d)
}

/// Integer square root by `num::integer::sqrt`, which documents its result
/// `r` as the one with `r * r <= n < (r + 1) * (r + 1)`.
#[verifier::external_body]
fn sqrt_u128(n: u128) -> (r: u128)
    ensures
        r * r <= n,
        n < (r + 1) * (r + 1),
{
    num::integer::sqrt(n)
}

/// Absolute value by `num::abs`, which negates a negative integer and hands
/// any other back. The most negative value, whose negation overflows, is
/// left out.
#[verifier::external_body]
fn abs_i64(v: i64) -> (r: i64)
    requires
        v != i64::MIN,
    ensures
        v < 0 ==> r == -v,
        v >= 0 ==> r == v,
{
    num::abs(v)
}

impl Scalar {
    /// Whether the value is a number.
    pub open spec fn is_finite(self) -> bool {
        self.raw != NAN_RAW
    }

    /// The scalar for an exact raw value: not-a-number when out of range.
    pub open spec fn exact(v: int) -> Scalar {
        if -MAX_RAW <= v <= MAX_RAW {
            Scalar { raw: v as i64 }
        } else {
            Scalar { raw: NAN_RAW }
        }
    }

    pub open spec fn plus(self, rhs: Scalar) -> Scalar {
        if self.is_finite() && rhs.is_finite() {
            Scalar::exact(self.raw + rhs.raw)
        } else {
            Scalar { raw: NAN_RAW }
        }
    }

    pub open spec fn minus(self, rhs: Scalar) -> Scalar {
        if self.is_finite() && rhs.is_finite() {
            Scalar::exact(self.raw - rhs.raw)
        } else {
            Scalar { raw: NAN_RAW }
        }
    }

    pub open spec fn negated(self) -> Scalar {
        if self.is_finite() {
            Scalar { raw: (-self.raw) as i64 }
        } else {
            Scalar { raw: NAN_RAW }
        }
    }

    /// The product, rounded down to the next billionth.
    pub open spec fn times(self, rhs: Scalar) -> Scalar {
        if self.is_finite() && rhs.is_finite() {
            Scalar::exact((self.raw * rhs.raw) / (SCALE as int))
        } else {
            Scalar { raw: NAN_RAW }
        }
    }

    /// The quotient, rounded down to the next billionth; not a number when
    /// the divisor is zero.
    pub open spec fn over(self, rhs: Scalar) -> Scalar {
        if self.is_finite() && rhs.is_finite() && rhs.raw != 0 {
            Scalar::exact(floor_quotient(self.raw * SCALE, rhs.raw as int))
        } else {
            Scalar { raw: NAN_RAW }
        }
    }

    pub open spec fn abs_spec(self) -> Scalar {
        if self.is_finite() && self.raw < 0 {
            Scalar { raw: (-self.raw) as i64 }
        } else {
            self
        }
    }

    /// The square root, rounded down; not a number for a negative value.
    pub open spec fn sqrt_spec(self) -> Scalar {
        if self.is_finite() && self.raw >= 0 {
            Scalar { raw: int_sqrt((self.raw * SCALE) as nat) as i64 }
        } else {
            Scalar { raw: NAN_RAW }
        }
    }

    /// The largest whole number that is not above the value.
    pub open spec fn floor_spec(self) -> Scalar {
        if self.is_finite() {
            Scalar::exact(((self.raw as int) / (SCALE as int)) * SCALE)
        } else {
            Scalar { raw: NAN_RAW }
        }
    }

    /// The smallest whole number that is not below the value.
    pub open spec fn ceil_spec(self) -> Scalar {
        if self.is_finite() {
            Scalar::exact(-(((-self.raw) / (SCALE as int)) * SCALE))
        } else {
            Scalar { raw: NAN_RAW }
        }
    }

    /// The smaller of two values; where one is not a number, the other.
    pub open spec fn min_spec(self, rhs: Scalar) -> Scalar {
        if !self.is_finite() {
            rhs
        } else if !rhs.is_finite() {
            self
        } else if self.raw <= rhs.raw {
            self
        } else {
            rhs
        }
    }

    /// The larger of two values; where one is not a number, the other.
    pub open spec fn max_spec(self, rhs: Scalar) -> Scalar {
        if !self.is_finite() {
            rhs
        } else if !rhs.is_finite() {
            self
        } else if self.raw >= rhs.raw {
            self
        } else {
            rhs
        }
    }

    /// Strictly less; false when either side is not a number.
    pub open spec fn lt_spec(self, rhs: Scalar) -> bool {
        self.is_finite() && rhs.is_finite() && self.raw < rhs.raw
    }

    /// Less or equal; false when either side is not a number.
    pub open spec fn le_spec(self, rhs: Scalar) -> bool {
        self.is_finite() && rhs.is_finite() && self.raw <= rhs.raw
    }

    /// The whole number `i`, where it is in range.
    pub open spec fn of_int(i: int) -> Scalar {
        Scalar::exact(i * SCALE)
    }

    pub fn nan() -> (r: Scalar)
        ensures
            r == (Scalar { raw: NAN_RAW }),
            !r.is_finite(),
    {
        Scalar { raw: NAN_RAW }
    }

    pub fn zero() -> (r: Scalar)
        ensures
            r == Scalar::of_int(0),
            r.raw == 0,
    {
        Scalar { raw: 0 }
    }

    pub fn one() -> (r: Scalar)
        ensures
            r == Scalar::of_int(1),
            r.raw == SCALE,
    {
        Scalar { raw: SCALE }
    }

    /// The scalar for an exact raw value held in a wide integer.
    fn from_wide(v: i128) -> (r: Scalar)
        ensures
            r == Scalar::exact(v as int),
    {
        if v < -(MAX_RAW as i128) || v > MAX_RAW as i128 {
            Scalar { raw: NAN_RAW }
        } else {
            Scalar { raw: v as i64 }
        }
    }

    /// The whole number `i`; not a number when `i * SCALE` is out of range.
    pub fn from_int(i: i64) -> (r: Scalar)
        ensures
            r == Scalar::of_int(i as int),
    {
        proof {
            lemma_product_bound(i as int, SCALE as int, 0x8000_0000_0000_0000);
        }
        Scalar::from_wide(i as i128 * SCALE as i128)
    }

    pub fn is_nan(&self) -> (r: bool)
        ensures
            r == !self.is_finite(),
    {
        self.raw == NAN_RAW
    }

    pub fn lt(&self, rhs: Scalar) -> (r: bool)
        ensures
            r == self.lt_spec(rhs),
    {
        self.raw != NAN_RAW && rhs.raw != NAN_RAW && self.raw < rhs.raw
    }

    pub fn le(&self, rhs: Scalar) -> (r: bool)
        ensures
            r == self.le_spec(rhs),
    {
        self.raw != NAN_RAW && rhs.raw != NAN_RAW && self.raw <= rhs.raw
    }

    pub fn gt(&self, rhs: Scalar) -> (r: bool)
        ensures
            r == rhs.lt_spec(*self),
    {
        rhs.lt(*self)
    }

    pub fn ge(&self, rhs: Scalar) -> (r: bool)
        ensures
            r == rhs.le_spec(*self),
    {
        rhs.le(*self)
    }

    pub fn abs(&self) -> (r: Scalar)
        ensures
            r == self.abs_spec(),
    {
        if self.raw == NAN_RAW {
            *self
        } else {
            Scalar { raw: abs_i64(self.raw) }
        }
    }

    pub fn sqrt(&self) -> (r: Scalar)
        ensures
            r == self.sqrt_spec(),
    {
        if self.raw == NAN_RAW || self.raw < 0 {
            return Scalar { raw: NAN_RAW };
        }
        let n: u128 = self.raw as u128 * SCALE as u128;
        let s: u128 = sqrt_u128(n);
        proof {
            lemma_int_sqrt_unique(n as nat, s as nat);
            lemma_int_sqrt_fits(self.raw as int);
        }
        Scalar { raw: s as i64 }
    }

    pub fn floor(&self) -> (r: Scalar)
        ensures
            r == self.floor_spec(),
    {
        if self.raw == NAN_RAW {
            return *self;
        }
        let q: i128 = div_floor_i128(self.raw as i128, SCALE as i128);
        Scalar::from_wide(q * SCALE as i128)
    }

    pub fn ceil(&self) -> (r: Scalar)
        ensures
            r == self.ceil_spec(),
    {
        if self.raw == NAN_RAW {
            return *self;
        }
        let q: i128 = div_floor_i128(-(self.raw as i128), SCALE as i128);
        Scalar::from_wide(-(q * SCALE as i128))
    }

    pub fn min(&self, rhs: Scalar) -> (r: Scalar)
        ensures
            r == self.min_spec(rhs),
    {
        if self.raw == NAN_RAW {
            rhs
        } else if rhs.raw == NAN_RAW {
            *self
        } else if self.raw <= rhs.raw {
            *self
        } else {
            rhs
        }
    }

    pub fn max(&self, rhs: Scalar) -> (r: Scalar)
        ensures
            r == self.max_spec(rhs),
    {
        if self.raw == NAN_RAW {
            rhs
        } else if rhs.raw == NAN_RAW {
            *self
        } else if self.raw >= rhs.raw {
            *self
        } else {
            rhs
        }
    }
}

impl core::ops::Add<Scalar> for Scalar {
    type Output = Scalar;

    fn add(self, rhs: Scalar) -> (r: Scalar) {
        if self.raw == NAN_RAW || rhs.raw == NAN_RAW {
            return Scalar { raw: NAN_RAW };
        }
        Scalar::from_wide(self.raw as i128 + rhs.raw as i128)
    }
}

impl AddSpecImpl<Scalar> for Scalar {
    open spec fn obeys_add_spec() -> bool {
        true
    }

    open spec fn add_req(self, rhs: Scalar) -> bool {
        true
    }

    open spec fn add_spec(self, rhs: Scalar) -> Scalar {
        self.plus(rhs)
    }
}

impl core::ops::Sub<Scalar> for Scalar {
    type Output = Scalar;

    fn sub(self, rhs: Scalar) -> (r: Scalar) {
        if self.raw == NAN_RAW || rhs.raw == NAN_RAW {
            return Scalar { raw: NAN_RAW };
        }
        Scalar::from_wide(self.raw as i128 - rhs.raw as i128)
    }
}

impl SubSpecImpl<Scalar> for Scalar {
    open spec fn obeys_sub_spec() -> bool {
        true
    }

    open spec fn sub_req(self, rhs: Scalar) -> bool {
        true
    }

    open spec fn sub_spec(self, rhs: Scalar) -> Scalar {
        self.minus(rhs)
    }
}

impl core::ops::Neg for Scalar {
    type Output = Scalar;

    fn neg(self) -> (r: Scalar) {
        if self.raw == NAN_RAW {
            self
        } else {
            Scalar { raw: -self.raw }
        }
    }
}

impl NegSpecImpl for Scalar {
    open spec fn obeys_neg_spec() -> bool {
        true
    }

    open spec fn neg_req(self) -> bool {
        true
    }

    open spec fn neg_spec(self) -> Scalar {
        self.negated()
    }
}

impl core::ops::Mul<Scalar> for Scalar {
    type Output = Scalar;

    fn mul(self, rhs: Scalar) -> (r: Scalar) {
        if self.raw == NAN_RAW || rhs.raw == NAN_RAW {
            return Scalar { raw: NAN_RAW };
        }
        let a: i128 = self.raw as i128;
        let b: i128 = rhs.raw as i128;
        proof {
            lemma_product_bound(a as int, b as int, MAX_RAW as int);
        }
        let q: i128 = div_floor_i128(a * b, SCALE as i128);
        Scalar::from_wide(q)
    }
}

impl MulSpecImpl<Scalar> for Scalar {
    open spec fn obeys_mul_spec() -> bool {
        true
    }

    open spec fn mul_req(self, rhs: Scalar) -> bool {
        true
    }

    open spec fn mul_spec(self, rhs: Scalar) -> Scalar {
        self.times(rhs)
    }
}

impl core::ops::Div<Scalar> for Scalar {
    type Output = Scalar;

    fn div(self, rhs: Scalar) -> (r: Scalar) {
        if self.raw == NAN_RAW || rhs.raw == NAN_RAW || rhs.raw == 0 {
            return Scalar { raw: NAN_RAW };
        }
        let a: i128 = self.raw as i128;
        proof {
            lemma_product_bound(a as int, SCALE as int, MAX_RAW as int);
        }
        let n: i128 = a * SCALE as i128;
        let d: i128 = rhs.raw as i128;
        let q: i128 = if d > 0 {
            div_floor_i128(n, d)
        } else {
            div_floor_i128(-n, -d)
        };
        Scalar::from_wide(q)
    }
}

impl DivSpecImpl<Scalar> for Scalar {
    open spec fn obeys_div_spec() -> bool {
        true
    }

    open spec fn div_req(self, rhs: Scalar) -> bool {
        true
    }

    open spec fn div_spec(self, rhs: Scalar) -> Scalar {
        self.over(rhs)
    }
}

/// A product of two integers of magnitude at most `m` has magnitude at most
/// `m * m`.
pub proof fn lemma_product_bound(a: int, b: int, m: int)
    requires
        -m <= a <= m,
        -m <= b <= m,
    ensures
        -(m * m) <= a * b <= m * m,
{
    assert(-(m * m) <= a * b <= m * m) by (nonlinear_arith)
        requires
            -m <= a <= m,
            -m <= b <= m,
    ;
}

} // verus!
