//! Saturating decimal fixed-point arithmetic.
//!
//! A scalar is an `i128` that counts units of 1e-18: the raw value `ONE`
//! stands for 1.0 and the raw value `EPSILON` for 1e-9. Every operation is
//! total. A result is the exact result, rounded toward zero where it has
//! more than eighteen decimal places, and held at the nearer end of
//! `[-LIMIT, LIMIT]` where it leaves that range. The range is symmetric, so
//! negation is exact on every result.

use vstd::prelude::*;

verus! {

/// The raw value of 1.0.
pub const ONE: i128 = 1_000_000_000_000_000_000;

/// The raw value of 0.5.
pub const HALF: i128 = 500_000_000_000_000_000;

/// The raw value of 4.0.
pub const FOUR: i128 = 4_000_000_000_000_000_000;

/// The raw value of 1e-9.
pub const EPSILON: i128 = 1_000_000_000;

/// The largest raw magnitude a result can have, a little above 1.7e20.
pub const LIMIT: i128 = 170_141_183_460_469_231_731_687_303_715_884_105_727;

/// The raw value of 1.0 as an unsigned number.
const UNIT: u128 = 1_000_000_000_000_000_000;

/// The square of `ONE`, the numerator of a reciprocal.
const UNIT_SQUARED: i128 = 1_000_000_000_000_000_000_000_000_000_000_000_000;

/// `x` held inside `[-LIMIT, LIMIT]`.
pub open spec fn saturate(x: int) -> int {
    if x > LIMIT {
        LIMIT as int
    } else if x < -LIMIT {
        -LIMIT
    } else {
        x
    }
}

/// A raw product brought back to units of 1e-18, rounded toward zero.
pub open spec fn scale_down(p: int) -> int {
    if p >= 0 {
        p / (ONE as int)
    } else {
        -((-p) / (ONE as int))
    }
}

/// The saturating sum of two scalars.
pub open spec fn sat_add(a: int, b: int) -> int {
    saturate(a + b)
}

/// The saturating difference of two scalars.
pub open spec fn sat_sub(a: int, b: int) -> int {
    saturate(a - b)
}

/// The saturating negation of a scalar.
pub open spec fn sat_neg(a: int) -> int {
    saturate(-a)
}

/// The saturating fixed-point product of two scalars.
pub open spec fn sat_mul(a: int, b: int) -> int {
    saturate(scale_down(a * b))
}

/// The fixed-point reciprocal of a positive scalar, rounded toward zero.
pub open spec fn recip(a: int) -> int
    recommends
        a > 0,
{
    (ONE * ONE) / a
}

/// Half of a scalar, rounded toward zero.
pub open spec fn half_of(a: int) -> int {
    if a >= 0 {
        a / 2
    } else {
        -((-a) / 2)
    }
}

/// Whether a raw value is one that the operations of this module return.
pub open spec fn in_range(a: int) -> bool {
    -LIMIT <= a <= LIMIT
}

/// The magnitude of a raw value.
pub open spec fn magnitude_of(a: int) -> int {
    if a >= 0 {
        a
    } else {
        -a
    }
}

fn clamp(s: i128) -> (r: i128)
    ensures
        r == saturate(s as int),
{
    if s < -LIMIT {
        -LIMIT
    } else {
        s
    }
}

fn magnitude(a: i128) -> (m: u128)
    ensures
        m == magnitude_of(a as int),
{
    if a >= 0 {
        a as u128
    } else if a < -LIMIT {
        (LIMIT as u128) + 1
    } else {
        (-a) as u128
    }
}

/// The product of two magnitudes, scaled back and held at `LIMIT`.
///
/// Each factor is split at `ONE` into a whole part and a fraction, so that
/// no partial product needs more than 128 bits unless the result is out of
/// range anyway.
fn scaled_product(x: u128, y: u128) -> (r: u128)
    requires
        x <= LIMIT + 1,
        y <= LIMIT + 1,
    ensures
        r == saturate((x * y) / (ONE as int)),
{
    let x1: u128 = x / UNIT;
    let x0: u128 = x % UNIT;
    let y1: u128 = y / UNIT;
    let y0: u128 = y % UNIT;
    let ghost whole: int = x1 * y1 * UNIT + x1 * y0 + x0 * y1;
    proof {
        lemma_split_product(x1 as int, x0 as int, y1 as int, y0 as int, UNIT as int);
        assert(x * y == whole * UNIT + x0 * y0);
        lemma_product_bound(x0 as int, y0 as int, UNIT as int, UNIT as int);
        lemma_product_bound(x1 as int, y0 as int, 170_141_183_460_469_231_731, UNIT as int);
        lemma_product_bound(x0 as int, y1 as int, UNIT as int, 170_141_183_460_469_231_731);
        lemma_product_bound(x1 as int, y1 as int, x1 as int, y1 as int);
        assert(whole >= x1 * y1 * UNIT >= x1 * y1) by (nonlinear_arith)
            requires
                whole == x1 * y1 * UNIT + x1 * y0 + x0 * y1,
                x1 * y1 >= 0,
                x1 * y0 >= 0,
                x0 * y1 >= 0,
                UNIT >= 1,
        ;
        assert((x * y) / (ONE as int) == whole + (x0 * y0) / (ONE as int));
    }
    let low: u128 = (x0 * y0) / UNIT;
    let cross: u128 = x1 * y0 + x0 * y1;
    let top: u128 = match x1.checked_mul(y1) {
        Some(t) => t,
        None => {
            return LIMIT as u128;
        },
    };
    let high: u128 = match top.checked_mul(UNIT) {
        Some(h) => h,
        None => {
            return LIMIT as u128;
        },
    };
    let most: u128 = match high.checked_add(cross) {
        Some(m) => m,
        None => {
            return LIMIT as u128;
        },
    };
    match most.checked_add(low) {
        Some(all) => if all > LIMIT as u128 {
            LIMIT as u128
        } else {
            all
        },
        None => LIMIT as u128,
    }
}

/// Adds two scalars.
pub fn plus(a: i128, b: i128) -> (r: i128)
    ensures
        r == sat_add(a as int, b as int),
{
    match a.checked_add(b) {
        Some(s) => clamp(s),
        None => if a < 0 {
            -LIMIT
        } else {
            LIMIT
        },
    }
}

/// Subtracts the scalar `b` from the scalar `a`.
pub fn minus(a: i128, b: i128) -> (r: i128)
    ensures
        r == sat_sub(a as int, b as int),
{
    match a.checked_sub(b) {
        Some(s) => clamp(s),
        None => if a < 0 {
            -LIMIT
        } else {
            LIMIT
        },
    }
}

/// Negates a scalar.
pub fn negate(a: i128) -> (r: i128)
    ensures
        r == sat_neg(a as int),
{
    if a < -LIMIT {
        LIMIT
    } else {
        -a
    }
}

/// Multiplies two scalars.
pub fn times(a: i128, b: i128) -> (r: i128)
    ensures
        r == sat_mul(a as int, b as int),
{
    let size: u128 = scaled_product(magnitude(a), magnitude(b));
    proof {
        lemma_product_sign(a as int, b as int);
        lemma_product_sign(magnitude_of(a as int), magnitude_of(b as int));
        lemma_product_sign(-(a as int), b as int);
        lemma_product_sign(a as int, -(b as int));
        lemma_product_sign(-(a as int), -(b as int));
    }
    if (a < 0) == (b < 0) {
        size as i128
    } else {
        -(size as i128)
    }
}

/// The reciprocal of a positive scalar.
pub fn invert(a: i128) -> (r: i128)
    requires
        a > 0,
    ensures
        r == recip(a as int),
{
    UNIT_SQUARED / a
}

/// Halves a scalar.
pub fn halve(a: i128) -> (r: i128)
    ensures
        r == half_of(a as int),
{
    a / 2
}

/// The product of two numbers that are split at `unit` into whole parts and
/// fractions, sorted by powers of `unit`.
proof fn lemma_split_product(x1: int, x0: int, y1: int, y0: int, unit: int)
    by (nonlinear_arith)
    ensures
        (x1 * unit + x0) * (y1 * unit + y0) == (x1 * y1 * unit + x1 * y0 + x0 * y1) * unit + x0
            * y0,
{
}

/// A product of two bounded numbers that are not negative is bounded by
/// the product of the bounds.
proof fn lemma_product_bound(x: int, y: int, bx: int, by: int)
    by (nonlinear_arith)
    requires
        0 <= x <= bx,
        0 <= y <= by,
    ensures
        0 <= x * y <= bx * by,
{
}

/// The sign of a product follows the signs of its factors.
pub proof fn lemma_product_sign(a: int, b: int)
    by (nonlinear_arith)
    ensures
        (a > 0 && b > 0) || (a < 0 && b < 0) ==> a * b > 0,
        (a > 0 && b < 0) || (a < 0 && b > 0) ==> a * b < 0,
        a == 0 || b == 0 ==> a * b == 0,
        (-a) * b == -(a * b),
        a * (-b) == -(a * b),
{
}

/// Saturation commutes with negation.
pub proof fn lemma_saturate_odd(x: int)
    ensures
        saturate(-x) == -saturate(x),
        in_range(saturate(x)),
{
}

/// Scaling back commutes with negation and keeps the sign.
pub proof fn lemma_scale_down_odd(p: int)
    ensures
        scale_down(-p) == -scale_down(p),
        p >= 0 ==> scale_down(p) >= 0,
        p <= 0 ==> scale_down(p) <= 0,
{
}

/// Negating either factor negates the product.
pub proof fn lemma_mul_odd(a: int, b: int)
    ensures
        sat_mul(-a, b) == -sat_mul(a, b),
        sat_mul(a, -b) == -sat_mul(a, b),
        in_range(sat_mul(a, b)),
{
    lemma_product_sign(a, b);
    lemma_scale_down_odd(a * b);
    lemma_saturate_odd(scale_down(a * b));
}

/// A product with a zero factor is zero.
pub proof fn lemma_mul_zero(a: int)
    ensures
        sat_mul(0, a) == 0,
        sat_mul(a, 0) == 0,
{
    lemma_product_sign(0, a);
    lemma_product_sign(a, 0);
}

/// A product of two factors of the same sign is not negative.
pub proof fn lemma_mul_nonnegative(a: int, b: int)
    requires
        (a >= 0 && b >= 0) || (a <= 0 && b <= 0),
    ensures
        sat_mul(a, b) >= 0,
{
    lemma_product_sign(a, b);
}

} // verus!
