//! How close to one the length of a normalized vector is.
//!
//! Every product and quotient is rounded down to a whole number of raw
//! units, so the length of a normalized vector is not exactly one. The
//! shorter the vector, the coarser its squared length is known, and the
//! wider the bound: for a vector at least `1 / k` units long the error is at
//! most five raw units below and `2 * k * k + k + 2` above.
use crate::geometry::vector::Vector3;
use crate::scalar::int_sqrt;
use crate::scalar::lemma_int_sqrt_bounds;
use crate::scalar::lemma_int_sqrt_fits;
use crate::scalar::SCALE;
use vstd::arithmetic::div_mod::lemma_fundamental_div_mod;
use vstd::arithmetic::div_mod::lemma_mod_bound;
use vstd::prelude::*;

verus! {

/// A number whose square is below the square of a positive bound lies
/// strictly between the bound and its negative.
pub proof fn lemma_square_bounds_magnitude(x: int, b: int)
    requires
        b > 0,
        x * x < b * b,
    ensures
        -b < x < b,
{
    if x >= b {
        assert(x * x >= b * b) by (nonlinear_arith)
            requires
                x >= b,
                b > 0,
        ;
    }
    if x <= -b {
        assert(x * x >= b * b) by (nonlinear_arith)
            requires
                x <= -b,
                b > 0,
        ;
    }
}

/// The square of a number of magnitude at most `b` is at most `b * b`.
pub proof fn lemma_square_in_range(c: int, b: int)
    requires
        -b <= c <= b,
    ensures
        0 <= c * c <= b * b,
{
    assert(0 <= c * c <= b * b) by (nonlinear_arith)
        requires
            -b <= c <= b,
    ;
}

/// The square of `c * n`, where `c` is `x * s / n` rounded down, differs
/// from the square of `x * s` by at most the rounding error times twice the
/// magnitude.
pub proof fn lemma_quotient_square(s: int, n: int, k: int, x: int, c: int)
    requires
        k >= 1,
        n > 0,
        0 < s <= n * k,
        -(n + 2 * k) <= x <= n + 2 * k,
        c * n <= x * s < c * n + n,
    ensures
        (c * n) * (c * n) <= (x * s) * (x * s) + 2 * ((n + 2 * k) * s * n) + n * n,
        (c * n) * (c * n) >= (x * s) * (x * s) - 2 * ((n + 2 * k) * s * n),
        -(s + 2 * (k * k)) <= c <= s + 2 * (k * k),
{
    let xs = x * s;
    let cn = c * n;
    let r = xs - cn;
    let m = (n + 2 * k) * s;
    assert(-m <= xs <= m) by (nonlinear_arith)
        requires
            -(n + 2 * k) <= x <= n + 2 * k,
            s > 0,
            xs == x * s,
            m == (n + 2 * k) * s,
    ;
    assert(cn * cn == xs * xs - 2 * (xs * r) + r * r) by (nonlinear_arith)
        requires
            cn == xs - r,
    ;
    assert(-(m * n) <= xs * r <= m * n) by (nonlinear_arith)
        requires
            -m <= xs <= m,
            0 <= r < n,
    ;
    assert(0 <= r * r <= n * n) by (nonlinear_arith)
        requires
            0 <= r < n,
    ;
    // m <= n * (s + 2 * k * k)
    let kk = k * k;
    assert(m == n * s + 2 * (k * s)) by (nonlinear_arith)
        requires
            m == (n + 2 * k) * s,
    ;
    assert(k * s <= n * kk) by (nonlinear_arith)
        requires
            k >= 1,
            s <= n * k,
            kk == k * k,
    ;
    if c >= s + 2 * kk + 1 {
        assert(c * n >= n * s + 2 * (n * kk) + n) by (nonlinear_arith)
            requires
                c >= s + 2 * kk + 1,
                n > 0,
        ;
    }
    if c <= -(s + 2 * kk + 1) {
        assert(c * n + n <= -(n * s) - 2 * (n * kk)) by (nonlinear_arith)
            requires
                c <= -(s + 2 * kk + 1),
                n > 0,
        ;
    }
}

/// From bounds on `cc * n * n` to bounds on `cc`: the sum of the squared
/// normalized components lies near `s * s`.
pub proof fn lemma_normalized_square_sum(s: int, n: int, k: int, xx: int, cc: int)
    requires
        k >= 1,
        n > 0,
        0 < s <= n * k,
        n * n <= xx < (n + 1 + 2 * k) * (n + 1 + 2 * k),
        cc * (n * n) <= xx * (s * s) + 6 * ((n + 2 * k) * s * n) + 3 * (n * n),
        cc * (n * n) >= xx * (s * s) - 6 * ((n + 2 * k) * s * n),
    ensures
        s * s - 6 * s - 12 * (k * k) <= cc,
        cc < (s + 2 * (k * k) + k + 3) * (s + 2 * (k * k) + k + 3),
{
    let nn = n * n;
    let ss = s * s;
    let kk = k * k;
    assert(nn > 0) by (nonlinear_arith)
        requires
            n > 0,
            nn == n * n,
    ;
    assert(ss > 0) by (nonlinear_arith)
        requires
            s > 0,
            ss == s * s,
    ;
    // cross <= (s + 2 kk) * nn
    let cross = (n + 2 * k) * s * n;
    assert(cross == s * nn + 2 * (k * (s * n))) by (nonlinear_arith)
        requires
            cross == (n + 2 * k) * s * n,
            nn == n * n,
    ;
    assert(s * n <= k * nn) by (nonlinear_arith)
        requires
            0 < s <= n * k,
            n > 0,
            nn == n * n,
    ;
    assert(k * (s * n) <= kk * nn) by (nonlinear_arith)
        requires
            s * n <= k * nn,
            k >= 1,
            kk == k * k,
    ;
    assert(cross <= s * nn + 2 * (kk * nn));
    // xx * ss < nn * (s + k + 2 kk)^2
    let top = (n + 1 + 2 * k) * (n + 1 + 2 * k);
    let a = s * (n + 1 + 2 * k);
    let b = n * (s + k + 2 * kk);
    assert(a == s * n + s + 2 * (k * s)) by (nonlinear_arith)
        requires
            a == s * (n + 1 + 2 * k),
    ;
    assert(b == s * n + n * k + 2 * (n * kk)) by (nonlinear_arith)
        requires
            b == n * (s + k + 2 * kk),
    ;
    assert(k * s <= n * kk) by (nonlinear_arith)
        requires
            k >= 1,
            s <= n * k,
            kk == k * k,
    ;
    assert(0 < a <= b) by (nonlinear_arith)
        requires
            a == s * n + s + 2 * (k * s),
            b == s * n + n * k + 2 * (n * kk),
            k * s <= n * kk,
            0 < s <= n * k,
            n > 0,
    ;
    assert(a * a <= b * b) by (nonlinear_arith)
        requires
            0 < a <= b,
    ;
    assert(ss * top == a * a) by (nonlinear_arith)
        requires
            ss == s * s,
            top == (n + 1 + 2 * k) * (n + 1 + 2 * k),
            a == s * (n + 1 + 2 * k),
    ;
    let side = s + k + 2 * kk;
    assert(nn * (side * side) == b * b) by (nonlinear_arith)
        requires
            nn == n * n,
            b == n * side,
    ;
    assert(xx * ss <= (top - 1) * ss) by (nonlinear_arith)
        requires
            xx <= top - 1,
            ss >= 0,
    ;
    assert((top - 1) * ss == ss * top - ss) by (nonlinear_arith);
    // upper
    let k_up = side * side + 6 * s + 12 * kk + 3;
    assert(nn * k_up == nn * (side * side) + 6 * (s * nn) + 12 * (kk * nn) + 3 * nn)
        by (nonlinear_arith)
        requires
            k_up == side * side + 6 * s + 12 * kk + 3,
    ;
    assert(cc * nn < nn * k_up);
    if cc >= k_up {
        assert(cc * nn >= k_up * nn) by (nonlinear_arith)
            requires
                cc >= k_up,
                nn > 0,
        ;
        assert(k_up * nn == nn * k_up) by (nonlinear_arith);
    }
    assert(kk >= k) by (nonlinear_arith)
        requires
            k >= 1,
            kk == k * k,
    ;
    assert(k_up <= (side + 3) * (side + 3)) by (nonlinear_arith)
        requires
            k_up == side * side + 6 * s + 12 * kk + 3,
            side == s + k + 2 * kk,
            k >= 1,
    ;
    // lower
    assert(xx * ss >= nn * ss) by (nonlinear_arith)
        requires
            xx >= nn,
            ss >= 0,
    ;
    let k_low = ss - 6 * s - 12 * kk;
    assert(nn * k_low == nn * ss - 6 * (s * nn) - 12 * (kk * nn)) by (nonlinear_arith)
        requires
            k_low == ss - 6 * s - 12 * kk,
    ;
    assert(cc * nn >= nn * k_low);
    if cc < k_low {
        assert(cc * nn <= (k_low - 1) * nn) by (nonlinear_arith)
            requires
                cc <= k_low - 1,
                nn > 0,
        ;
        assert((k_low - 1) * nn == nn * k_low - nn) by (nonlinear_arith);
    }
}

/// One component of a normalized vector: `x * SCALE / n` rounded down stays
/// near `SCALE` in magnitude, and its square times `n * n` stays near the
/// square of `x * SCALE`.
pub proof fn lemma_normalized_component(x: int, n: int, k: int)
    requires
        k >= 1,
        n > 0,
        SCALE <= n * k,
        -(n + 2 * k) <= x <= n + 2 * k,
    ensures
        -(SCALE + 2 * (k * k)) <= (x * SCALE) / n <= SCALE + 2 * (k * k),
        (((x * SCALE) / n) * ((x * SCALE) / n)) * (n * n) <= (x * x) * (SCALE * SCALE) + 2 * ((n
            + 2 * k) * SCALE * n) + n * n,
        (((x * SCALE) / n) * ((x * SCALE) / n)) * (n * n) >= (x * x) * (SCALE * SCALE) - 2 * ((n
            + 2 * k) * SCALE * n),
{
    let s = SCALE as int;
    let c = (x * s) / n;
    lemma_fundamental_div_mod(x * s, n);
    lemma_mod_bound(x * s, n);
    assert(n * c == c * n) by (nonlinear_arith);
    lemma_quotient_square(s, n, k, x, c);
    assert((c * n) * (c * n) == (c * c) * (n * n)) by (nonlinear_arith);
    assert((x * s) * (x * s) == (x * x) * (s * s)) by (nonlinear_arith);
}

/// A vector that is at least `1 / k` units long has, once normalized, a
/// length between one less five raw units and one plus
/// `2 * k * k + k + 2` raw units.
pub proof fn lemma_normalized_length_near_one(v: Vector3, k: int)
    requires
        k >= 1,
        12 * (k * k) + 25 <= SCALE,
        v.norm_spec().is_finite(),
        v.norm_spec().raw * k >= SCALE,
    ensures
        v.normalized().is_finite(),
        v.normalized().norm_spec().is_finite(),
        SCALE - 5 <= v.normalized().norm_spec().raw <= SCALE + 2 * (k * k) + k + 2,
{
    let s = SCALE as int;
    let kk = k * k;
    let x1 = v.x.raw as int;
    let x2 = v.y.raw as int;
    let x3 = v.z.raw as int;
    let dot = v.dot_spec(v);
    assert(dot.is_finite() && dot.raw >= 0);
    let q1 = v.x.times(v.x);
    let q2 = v.y.times(v.y);
    let q3 = v.z.times(v.z);
    assert(q1.is_finite() && q2.is_finite() && q3.is_finite());
    assert(q1.raw == (x1 * x1) / s);
    assert(q2.raw == (x2 * x2) / s);
    assert(q3.raw == (x3 * x3) / s);
    let sum = dot.raw as int;
    assert(sum == q1.raw + q2.raw + q3.raw);
    lemma_int_sqrt_fits(sum);
    lemma_int_sqrt_bounds((sum * s) as nat);
    let n = v.norm_spec().raw as int;
    assert(n == int_sqrt((sum * s) as nat));
    assert(n > 0) by (nonlinear_arith)
        requires
            n * k >= s,
            s > 0,
            k >= 1,
            n >= 0,
    ;
    let xx = x1 * x1 + x2 * x2 + x3 * x3;
    assert(x1 * x1 >= 0 && x2 * x2 >= 0 && x3 * x3 >= 0) by (nonlinear_arith);
    assert(sum * s == q1.raw * s + q2.raw * s + q3.raw * s) by (nonlinear_arith)
        requires
            sum == q1.raw + q2.raw + q3.raw,
    ;
    assert(sum * s <= xx < sum * s + 3 * s);
    let reach = n + 1 + 2 * k;
    assert((n + 1) * (n + 1) + 3 * s <= reach * reach) by (nonlinear_arith)
        requires
            n * k >= s,
            s > 0,
            k >= 1,
            n > 0,
            reach == n + 1 + 2 * k,
    ;
    assert(n * n <= xx < reach * reach);
    lemma_square_bounds_magnitude(x1, reach);
    lemma_square_bounds_magnitude(x2, reach);
    lemma_square_bounds_magnitude(x3, reach);
    lemma_normalized_component(x1, n, k);
    lemma_normalized_component(x2, n, k);
    lemma_normalized_component(x3, n, k);
    let c1 = (x1 * s) / n;
    let c2 = (x2 * s) / n;
    let c3 = (x3 * s) / n;
    let w = v.normalized();
    assert(w.x.raw == c1 && w.x.is_finite());
    assert(w.y.raw == c2 && w.y.is_finite());
    assert(w.z.raw == c3 && w.z.is_finite());
    let cc = c1 * c1 + c2 * c2 + c3 * c3;
    assert(cc * (n * n) == (c1 * c1) * (n * n) + (c2 * c2) * (n * n) + (c3 * c3) * (n * n))
        by (nonlinear_arith)
        requires
            cc == c1 * c1 + c2 * c2 + c3 * c3,
    ;
    assert(xx * (s * s) == (x1 * x1) * (s * s) + (x2 * x2) * (s * s) + (x3 * x3) * (s * s))
        by (nonlinear_arith)
        requires
            xx == x1 * x1 + x2 * x2 + x3 * x3,
    ;
    lemma_normalized_square_sum(s, n, k, xx, cc);
    lemma_square_in_range(c1, 2 * s);
    lemma_square_in_range(c2, 2 * s);
    lemma_square_in_range(c3, 2 * s);
    let u1 = w.x.times(w.x);
    let u2 = w.y.times(w.y);
    let u3 = w.z.times(w.z);
    assert(u1.raw == (c1 * c1) / s && u1.is_finite());
    assert(u2.raw == (c2 * c2) / s && u2.is_finite());
    assert(u3.raw == (c3 * c3) / s && u3.is_finite());
    let wdot = w.dot_spec(w);
    let wsum = u1.raw + u2.raw + u3.raw;
    assert(wdot.is_finite() && wdot.raw == wsum);
    assert(wsum * s == u1.raw * s + u2.raw * s + u3.raw * s) by (nonlinear_arith)
        requires
            wsum == u1.raw + u2.raw + u3.raw,
    ;
    assert(wsum * s <= cc < wsum * s + 3 * s);
    lemma_int_sqrt_fits(wsum);
    lemma_int_sqrt_bounds((wsum * s) as nat);
    let m = int_sqrt((wsum * s) as nat) as int;
    assert(w.norm_spec().raw == m);
    lemma_square_bounds_magnitude(m, s + 2 * kk + k + 3);
    if m + 1 <= s - 5 {
        assert((m + 1) * (m + 1) <= (s - 5) * (s - 5)) by (nonlinear_arith)
            requires
                0 <= m + 1 <= s - 5,
        ;
    }
}

/// A vector that is at least one unit long has, once normalized, a length
/// within five raw units of one.
pub proof fn lemma_normalized_has_unit_length(v: Vector3)
    requires
        v.norm_spec().is_finite(),
        v.norm_spec().raw >= SCALE,
    ensures
        v.normalized().is_finite(),
        v.normalized().norm_spec().is_finite(),
        SCALE - 5 <= v.normalized().norm_spec().raw <= SCALE + 5,
{
    lemma_normalized_length_near_one(v, 1);
}

} // verus!
