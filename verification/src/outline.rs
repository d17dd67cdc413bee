//! Quantisation of an edge direction into one of the outline glyph slots.
//!
//! For a gradient `(h, v)` the direction is `d = atan(v / h) / pi`, a value
//! strictly between -1/2 and 1/2, and the slot is `(d + 1) * 3.5` rounded to
//! the nearest integer (halves away from zero). A gradient with `h == 0` has
//! no quotient; its direction is taken to be 0.
//!
//! The slot changes where `d` crosses -2/7, 0 and 2/7, that is where the
//! slope `v / h` crosses `-tan(2 pi / 7)`, 0 and `tan(2 pi / 7)`. The slope
//! is rational and that tangent is not, so the comparison is decided exactly
//! on integers: `tan(k pi / 7)^2` for `k = 1, 2, 3` are the three roots of
//! `u^3 - 21 u^2 + 35 u - 7`, and `tan(2 pi / 7)^2`, about 1.5724, is the
//! only one of them between 1 and 2.

use vstd::prelude::*;
use vstd::math::abs;
use crate::edge::MAX_GRADIENT;

verus! {

/// `b^3 * p(a / b)` for `p(u) = u^3 - 21 u^2 + 35 u - 7`.
pub open spec fn seventh_turn_cubic(a: int, b: int) -> int {
    a * a * a - 21 * (a * a * b) + 35 * (a * b * b) - 7 * (b * b * b)
}

/// Whether `|v / h| >= tan(2 pi / 7)`, for `h != 0`.
pub open spec fn spec_is_steep(h: int, v: int) -> bool {
    let a = v * v;
    let b = h * h;
    a >= 2 * b || (a >= b && seventh_turn_cubic(a, b) <= 0)
}

/// The outline slot of the gradient `(h, v)`.
pub open spec fn spec_outline_index(h: int, v: int) -> int {
    if h == 0 {
        4
    } else if (v >= 0 && h > 0) || (v <= 0 && h < 0) {
        if spec_is_steep(h, v) {
            5
        } else {
            4
        }
    } else {
        if spec_is_steep(h, v) {
            2
        } else {
            3
        }
    }
}

proof fn lemma_product_bound(x: int, y: int, bx: int, by: int)
    by (nonlinear_arith)
    requires
        0 <= x <= bx,
        0 <= y <= by,
    ensures
        0 <= x * y <= bx * by,
{
}

proof fn lemma_square_bound(x: int, bound: int)
    by (nonlinear_arith)
    requires
        -bound <= x <= bound,
    ensures
        0 <= x * x <= bound * bound,
{
}

/// Decides `spec_is_steep` in 128-bit arithmetic.
pub fn is_steep(h: i64, v: i64) -> (steep: bool)
    requires
        -MAX_GRADIENT <= h <= MAX_GRADIENT,
        -MAX_GRADIENT <= v <= MAX_GRADIENT,
    ensures
        steep == spec_is_steep(h as int, v as int),
{
    let ghost m2: int = 1_040_400_000_000;
    proof {
        lemma_square_bound(h as int, MAX_GRADIENT as int);
        lemma_square_bound(v as int, MAX_GRADIENT as int);
        assert(MAX_GRADIENT * MAX_GRADIENT == m2);
    }
    let a: i128 = (v as i128) * (v as i128);
    let b: i128 = (h as i128) * (h as i128);
    if a >= 2 * b {
        true
    } else if a < b {
        false
    } else {
        proof {
            lemma_product_bound(a as int, a as int, m2, m2);
            lemma_product_bound(a as int, b as int, m2, m2);
            lemma_product_bound(b as int, b as int, m2, m2);
            lemma_product_bound(a * a, a as int, m2 * m2, m2);
            lemma_product_bound(a * a, b as int, m2 * m2, m2);
            lemma_product_bound(a * b, b as int, m2 * m2, m2);
            lemma_product_bound(b * b, b as int, m2 * m2, m2);
            assert(m2 * m2 * m2 == 1_126_162_419_264_000_000_000_000_000_000_000_000);
        }
        let aaa: i128 = a * a * a;
        let aab: i128 = a * a * b;
        let abb: i128 = a * b * b;
        let bbb: i128 = b * b * b;
        aaa - 21 * aab + 35 * abb - 7 * bbb <= 0
    }
}

/// The outline slot of a gradient.
pub fn outline_index(h: i64, v: i64) -> (slot: usize)
    requires
        -MAX_GRADIENT <= h <= MAX_GRADIENT,
        -MAX_GRADIENT <= v <= MAX_GRADIENT,
    ensures
        slot == spec_outline_index(h as int, v as int),
        2 <= slot <= 5,
{
    if h == 0 {
        4
    } else {
        let steep = is_steep(h, v);
        if (v >= 0 && h > 0) || (v <= 0 && h < 0) {
            if steep {
                5
            } else {
                4
            }
        } else {
            if steep {
                2
            } else {
                3
            }
        }
    }
}

/// Every gradient has one of the four middle slots.
pub proof fn lemma_outline_index_range(h: int, v: int)
    ensures
        2 <= spec_outline_index(h, v) <= 5,
{
}

/// A gradient and its negation name the same line and get the same slot.
pub proof fn lemma_opposite_gradients_agree(h: int, v: int)
    ensures
        spec_outline_index(-h, -v) == spec_outline_index(h, v),
{
    assert((-h) * (-h) == h * h) by (nonlinear_arith);
    assert((-v) * (-v) == v * v) by (nonlinear_arith);
}

/// Mirroring a gradient top to bottom mirrors its slot about the middle of
/// the palette.
pub proof fn lemma_mirrored_gradient(h: int, v: int)
    requires
        h != 0,
        v != 0,
    ensures
        spec_outline_index(h, -v) == 7 - spec_outline_index(h, v),
{
    assert((-v) * (-v) == v * v) by (nonlinear_arith);
}

/// The boundary between shallow and steep lies between the slopes
/// 1.2539603 and 1.2539604, as `tan(2 pi / 7) = 1.25396033..` does.
pub proof fn lemma_steep_boundary(h: int, v: int)
    requires
        h != 0,
    ensures
        10_000_000 * abs(v) >= 12_539_604 * abs(h) ==> spec_is_steep(h, v),
        10_000_000 * abs(v) <= 12_539_603 * abs(h) ==> !spec_is_steep(h, v),
{
    let a = v * v;
    let b = h * h;
    lemma_squares(h, v);
    if 10_000_000 * abs(v) >= 12_539_604 * abs(h) {
        assert(100_000_000_000_000 * a >= 157_241_668_476_816 * b) by (nonlinear_arith)
            requires
                10_000_000 * abs(v) >= 12_539_604 * abs(h),
                abs(h) > 0,
                abs(v) >= 0,
                a == abs(v) * abs(v),
                b == abs(h) * abs(h),
        ;
        if a < 2 * b {
            lemma_cubic_below_zero(a, b);
        }
    }
    if 10_000_000 * abs(v) <= 12_539_603 * abs(h) {
        assert(100_000_000_000_000 * a <= 157_241_643_397_609 * b) by (nonlinear_arith)
            requires
                10_000_000 * abs(v) <= 12_539_603 * abs(h),
                abs(h) > 0,
                abs(v) >= 0,
                a == abs(v) * abs(v),
                b == abs(h) * abs(h),
        ;
        if a >= b {
            lemma_cubic_above_zero(a, b);
        }
    }
}

/// A steeper gradient of a steep one is steep.
pub proof fn lemma_steep_is_monotonic(h: int, v: int, w: int)
    requires
        h != 0,
        abs(v) <= abs(w),
        spec_is_steep(h, v),
    ensures
        spec_is_steep(h, w),
{
    lemma_squares(h, v);
    lemma_squares(h, w);
    assert(v * v <= w * w) by (nonlinear_arith)
        requires
            0 <= abs(v) <= abs(w),
            v * v == abs(v) * abs(v),
            w * w == abs(w) * abs(w),
    ;
    if w * w < 2 * (h * h) {
        lemma_cubic_decreases(v * v, w * w, h * h);
    }
}

/// For a fixed horizontal gradient the slot never decreases as the slope
/// `v / h` grows.
pub proof fn lemma_outline_index_monotonic(h: int, v1: int, v2: int)
    requires
        h > 0,
        v1 <= v2,
    ensures
        spec_outline_index(h, v1) <= spec_outline_index(h, v2),
{
    if 0 <= v1 {
        if spec_is_steep(h, v1) {
            lemma_steep_is_monotonic(h, v1, v2);
        }
    } else if v2 <= 0 {
        if spec_is_steep(h, v2) {
            lemma_steep_is_monotonic(h, v2, v1);
        }
        if v2 == 0 {
            assert(!spec_is_steep(h, 0)) by {
                lemma_steep_boundary(h, 0);
            }
        }
    }
}

proof fn lemma_squares(h: int, v: int)
    by (nonlinear_arith)
    requires
        h != 0,
    ensures
        h * h > 0,
        v * v >= 0,
        h * h == abs(h) * abs(h),
        v * v == abs(v) * abs(v),
{
}

proof fn lemma_cubic_decreases(a: int, c: int, b: int)
    by (nonlinear_arith)
    requires
        b > 0,
        b <= a <= c,
        c < 2 * b,
        seventh_turn_cubic(a, b) <= 0,
    ensures
        seventh_turn_cubic(c, b) <= 0,
{
}

proof fn lemma_cubic_below_zero(a: int, b: int)
    by (nonlinear_arith)
    requires
        b > 0,
        100_000_000_000_000 * a >= 157_241_668_476_816 * b,
        a < 2 * b,
    ensures
        seventh_turn_cubic(a, b) <= 0,
{
}

proof fn lemma_cubic_above_zero(a: int, b: int)
    by (nonlinear_arith)
    requires
        b > 0,
        a >= b,
        100_000_000_000_000 * a <= 157_241_643_397_609 * b,
    ensures
        seventh_turn_cubic(a, b) > 0,
{
}

} // verus!
