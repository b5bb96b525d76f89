//! Fixed-point decimal arithmetic.
//!
//! Prices, quantities, balances and percentages are `i64` values counted in
//! units of 10^-8: the decimal `d` is held as `d * SCALE`.

use vstd::prelude::*;

verus! {

/// Units of one whole: decimal quantities carry eight fractional digits.
pub const SCALE: i64 = 100_000_000;

/// Bound on the magnitude of a decimal quantity that the arithmetic below
/// accepts without further conditions (about 4.6e10 whole units).
pub const MAX_MAGNITUDE: i64 = 0x3fff_ffff_ffff_ffff;

/// `x` can be stored in an `i64`.
pub open spec fn fits_i64(x: int) -> bool {
    i64::MIN <= x <= i64::MAX
}

/// `x` is a decimal quantity of admissible magnitude.
pub open spec fn in_range(x: int) -> bool {
    -(MAX_MAGNITUDE as int) <= x <= MAX_MAGNITUDE as int
}

/// Integer division that rounds toward zero, as Rust's `/` does (`b > 0`).
pub open spec fn div_toward_zero(a: int, b: int) -> int
    recommends
        b > 0,
{
    if a >= 0 {
        a / b
    } else {
        -((-a) / b)
    }
}

/// The product of two decimal quantities, rounded toward zero.
pub open spec fn dec_mul(a: int, b: int) -> int {
    div_toward_zero(a * b, SCALE as int)
}

/// The quotient `a / b` of two decimal quantities (`b > 0`), rounded toward zero.
pub open spec fn dec_div(a: int, b: int) -> int {
    div_toward_zero(a * SCALE, b)
}

/// The decimal value of a whole number `n`.
pub open spec fn whole(n: int) -> int {
    n * SCALE
}

proof fn lemma_i64_product_fits_i128(a: i64, b: i64)
    ensures
        -0x4000_0000_0000_0000_0000_0000_0000_0000int <= (a as int) * (b as int)
            <= 0x4000_0000_0000_0000_0000_0000_0000_0000int,
{
    assert(-0x4000_0000_0000_0000_0000_0000_0000_0000int <= (a as int) * (b as int)
        <= 0x4000_0000_0000_0000_0000_0000_0000_0000int) by (nonlinear_arith)
        requires
            -0x8000_0000_0000_0000int <= a <= 0x7fff_ffff_ffff_ffffint,
            -0x8000_0000_0000_0000int <= b <= 0x7fff_ffff_ffff_ffffint,
    ;
}

/// Product of two decimal quantities.
pub fn dmul(a: i64, b: i64) -> (r: i64)
    requires
        fits_i64(dec_mul(a as int, b as int)),
    ensures
        r == dec_mul(a as int, b as int),
{
    proof {
        lemma_i64_product_fits_i128(a, b);
    }
    let p: i128 = (a as i128) * (b as i128);
    let q: i128 = p / (SCALE as i128);
    q as i64
}

/// Quotient of two decimal quantities, the divisor positive.
pub fn ddiv(a: i64, b: i64) -> (r: i64)
    requires
        b > 0,
        fits_i64(dec_div(a as int, b as int)),
    ensures
        r == dec_div(a as int, b as int),
{
    proof {
        lemma_i64_product_fits_i128(a, SCALE);
    }
    let p: i128 = (a as i128) * (SCALE as i128);
    let q: i128 = p / (b as i128);
    q as i64
}

/// Whether the quotient `num / den` is strictly greater than `bound`, the
/// quotient taken as a real number. A zero denominator follows IEEE
/// division: a positive numerator gives +infinity, which exceeds every
/// bound; a negative one gives -infinity and zero gives NaN, which exceed
/// none.
pub open spec fn ratio_exceeds(num: int, den: int, bound: int) -> bool {
    if den > 0 {
        num > bound * den
    } else if den < 0 {
        num < bound * den
    } else {
        num > 0
    }
}

/// Whether the quotient `num / den`, as a real number, is at least `bound`,
/// with the same reading of a zero denominator as `ratio_exceeds`.
pub open spec fn ratio_reaches(num: int, den: int, bound: int) -> bool {
    if den > 0 {
        num >= bound * den
    } else if den < 0 {
        num <= bound * den
    } else {
        num > 0
    }
}

/// Whether the quotient `num / den`, as a real number, is below one, with the
/// same reading of a zero denominator as `ratio_exceeds`.
pub open spec fn ratio_below_one(num: int, den: int) -> bool {
    if den > 0 {
        num < den
    } else if den < 0 {
        num > den
    } else {
        num < 0
    }
}

/// Bound on the magnitude of numerators that the comparisons below accept.
pub open spec fn small_i128(x: int) -> bool {
    -0x10_0000_0000_0000_0000_0000_0000int <= x <= 0x10_0000_0000_0000_0000_0000_0000int
}

/// `x * 100 * SCALE`: a quantity scaled to a percentage's numerator.
pub fn percent_numerator(x: i128) -> (r: i128)
    requires
        -0x2_0000_0000_0000_0000int <= x <= 0x2_0000_0000_0000_0000int,
    ensures
        r == x * 100 * SCALE,
        small_i128(r as int),
{
    x * 100 * (SCALE as i128)
}

/// `ratio_exceeds`, computed.
pub fn exceeds_ratio(num: i128, den: i64, bound: i64) -> (r: bool)
    requires
        small_i128(num as int),
    ensures
        r == ratio_exceeds(num as int, den as int, bound as int),
{
    proof {
        lemma_i64_product_fits_i128(bound, den);
    }
    let b: i128 = (bound as i128) * (den as i128);
    if den > 0 {
        num > b
    } else if den < 0 {
        num < b
    } else {
        num > 0
    }
}

/// `ratio_reaches`, computed.
pub fn reaches_ratio(num: i128, den: i64, bound: i64) -> (r: bool)
    requires
        small_i128(num as int),
    ensures
        r == ratio_reaches(num as int, den as int, bound as int),
{
    proof {
        lemma_i64_product_fits_i128(bound, den);
    }
    let b: i128 = (bound as i128) * (den as i128);
    if den > 0 {
        num >= b
    } else if den < 0 {
        num <= b
    } else {
        num > 0
    }
}

/// Clamps an integer into the range of `i64`.
pub open spec fn clamp_i64(x: int) -> int {
    if x > i64::MAX {
        i64::MAX as int
    } else if x < i64::MIN {
        i64::MIN as int
    } else {
        x
    }
}

/// The percentage `num / den * 100` as a decimal, rounded toward zero and
/// held within `i64`. With a zero denominator it stands for IEEE's result:
/// `i64::MAX` for +infinity, `i64::MIN` for -infinity and for NaN (both
/// compare below every bound that an `i64` can express, as NaN does).
pub open spec fn percent_of(num: int, den: int) -> int {
    if den > 0 {
        clamp_i64(div_toward_zero(num * 100 * SCALE, den))
    } else if den < 0 {
        clamp_i64(-div_toward_zero(num * 100 * SCALE, -den))
    } else if num > 0 {
        i64::MAX as int
    } else {
        i64::MIN as int
    }
}

/// `percent_of`, computed.
pub fn percent(num: i64, den: i64) -> (r: i64)
    ensures
        r == percent_of(num as int, den as int),
{
    if den == 0 {
        return if num > 0 {
            i64::MAX
        } else {
            i64::MIN
        };
    }
    proof {
        assert(-0x8000_0000_0000_0000_0000_0000_0000int <= (num as int) * 100 * SCALE
            <= 0x8000_0000_0000_0000_0000_0000_0000int) by (nonlinear_arith)
            requires
                -0x8000_0000_0000_0000int <= num <= 0x7fff_ffff_ffff_ffffint,
        ;
    }
    let scaled: i128 = (num as i128) * 100 * (SCALE as i128);
    let q: i128 = if den > 0 {
        scaled / (den as i128)
    } else {
        let d: i128 = -(den as i128);
        let t: i128 = scaled / d;
        -t
    };
    if q > i64::MAX as i128 {
        i64::MAX
    } else if q < i64::MIN as i128 {
        i64::MIN
    } else {
        q as i64
    }
}

} // verus!
