//! 16.16 signed fixed-point scalars.
//!
//! An `i64` value `v` stands for the real number `v / 65536`.  All
//! operations truncate toward zero, the way the corresponding operations
//! on machine numbers do, and every executable function carries an exact
//! contract over the spec-level definitions below.

use vstd::arithmetic::div_mod::{
    lemma_div_is_ordered, lemma_div_multiples_vanish, lemma_div_pos_is_pos,
};
use vstd::prelude::*;

verus! {

/// One unit in 16.16 fixed point: the integer 65536 stands for the real 1.0.
pub const FP: i64 = 65536;

/// Half a unit, the offset used when rounding to the nearest integer.
pub const FP_HALF: i64 = 32768;

/// The absolute value of a mathematical integer.
pub open spec fn abs_s(a: int) -> int {
    if a < 0 {
        -a
    } else {
        a
    }
}

/// Division truncating toward zero, the rule machine division follows.
/// Spec-level `/` is Euclidean, so the negative case is spelled out.
pub open spec fn div_t(a: int, b: int) -> int {
    if a >= 0 {
        a / b
    } else {
        -((-a) / b)
    }
}

/// The product of two fixed-point values, truncated toward zero.
pub open spec fn fx_mul_s(a: int, b: int) -> int {
    div_t(a * b, FP as int)
}

/// The quotient of two fixed-point values, truncated toward zero.
pub open spec fn fx_div_s(a: int, b: int) -> int {
    div_t(a * (FP as int), b)
}

/// The nearest integer to the fixed-point value `a`, halves rounding
/// away from zero.
pub open spec fn fx_round_s(a: int) -> int {
    if a >= 0 {
        (a + FP_HALF) / (FP as int)
    } else {
        -((-a + FP_HALF) / (FP as int))
    }
}

/// The quotient truncated toward zero is no farther from zero than the
/// dividend, and its magnitude is bounded by the magnitude bound of the
/// dividend divided by the divisor.
pub proof fn lemma_div_t_bound(a: int, b: int, m: int)
    requires
        b >= 1,
        -m <= a <= m,
    ensures
        -(m / b) <= div_t(a, b) <= m / b,
        a >= 0 ==> 0 <= div_t(a, b) <= a,
        a < 0 ==> a <= div_t(a, b) <= 0,
{
    if a >= 0 {
        lemma_div_pos_is_pos(a, b);
        lemma_div_is_ordered(a, m, b);
        lemma_div_is_ordered(0, m, b);
        assert(a / b <= a) by {
            assert(a <= a * b) by (nonlinear_arith)
                requires
                    a >= 0,
                    b >= 1,
            ;
            lemma_div_is_ordered(a, a * b, b);
            lemma_div_multiples_vanish(a, b);
            assert(a * b == b * a) by (nonlinear_arith);
        }
    } else {
        lemma_div_pos_is_pos(-a, b);
        lemma_div_is_ordered(-a, m, b);
        lemma_div_is_ordered(0, m, b);
        assert((-a) / b <= -a) by {
            assert(-a <= (-a) * b) by (nonlinear_arith)
                requires
                    a < 0,
                    b >= 1,
            ;
            lemma_div_is_ordered(-a, (-a) * b, b);
            lemma_div_multiples_vanish(-a, b);
            assert((-a) * b == b * (-a)) by (nonlinear_arith);
        }
    }
}

/// The magnitude of a product is bounded by the product of the bounds.
pub proof fn lemma_mul_abs_bound(a: int, b: int, ma: int, mb: int)
    requires
        -ma <= a <= ma,
        -mb <= b <= mb,
    ensures
        -(ma * mb) <= a * b <= ma * mb,
{
    assert(-(ma * mb) <= a * b <= ma * mb) by (nonlinear_arith)
        requires
            -ma <= a <= ma,
            -mb <= b <= mb,
    ;
}

/// The magnitude of a fixed-point product is bounded by the product of
/// the bounds, scaled back down.
pub proof fn lemma_fx_mul_bound(a: int, b: int, ma: int, mb: int)
    requires
        -ma <= a <= ma,
        -mb <= b <= mb,
        0 <= ma,
        0 <= mb,
    ensures
        -((ma * mb) / (FP as int)) <= fx_mul_s(a, b) <= (ma * mb) / (FP as int),
{
    lemma_mul_abs_bound(a, b, ma, mb);
    lemma_div_t_bound(a * b, FP as int, ma * mb);
}

/// Multiplying by a factor of magnitude at most one keeps the first
/// operand's magnitude bound.
pub proof fn lemma_fx_mul_bound_fp(a: int, b: int, ma: int)
    requires
        -ma <= a <= ma,
        -(FP as int) <= b <= FP as int,
        0 <= ma,
    ensures
        -ma <= fx_mul_s(a, b) <= ma,
{
    lemma_fx_mul_bound(a, b, ma, FP as int);
    assert((ma * (FP as int)) / (FP as int) == ma) by {
        lemma_div_multiples_vanish(ma, FP as int);
        assert(ma * (FP as int) == (FP as int) * ma) by (nonlinear_arith);
    }
}

/// A fixed-point quotient of a numerator no larger in magnitude than its
/// positive denominator lies within one unit of zero.
pub proof fn lemma_fx_div_unit(x: int, w: int)
    requires
        w >= 1,
        -w <= x <= w,
    ensures
        -(FP as int) <= fx_div_s(x, w) <= FP as int,
{
    lemma_mul_abs_bound(x, FP as int, w, FP as int);
    lemma_div_t_bound(x * (FP as int), w, w * (FP as int));
    assert((w * (FP as int)) / w == FP as int) by {
        lemma_div_multiples_vanish(FP as int, w);
        assert(w * (FP as int) == (FP as int) * w) by (nonlinear_arith);
    }
}

/// Truncating division on machine integers, for a positive divisor.
pub fn div_trunc(a: i64, b: i64) -> (r: i64)
    requires
        b >= 1,
        a > i64::MIN,
    ensures
        r == div_t(a as int, b as int),
        a >= 0 ==> 0 <= r <= a,
        a < 0 ==> a <= r <= 0,
{
    proof {
        lemma_div_t_bound(a as int, b as int, abs_s(a as int));
    }
    if a >= 0 {
        let q: u64 = (a as u64) / (b as u64);
        q as i64
    } else {
        let m: u64 = ((-a) as u64) / (b as u64);
        -(m as i64)
    }
}

/// The fixed-point product, truncated toward zero.
pub fn fx_mul(a: i64, b: i64) -> (r: i64)
    requires
        -0x8000_0000 <= a <= 0x8000_0000,
        -0x8000_0000 <= b <= 0x8000_0000,
    ensures
        r == fx_mul_s(a as int, b as int),
        -0x4000_0000_0000 <= r <= 0x4000_0000_0000,
{
    proof {
        lemma_mul_abs_bound(a as int, b as int, 0x8000_0000, 0x8000_0000);
        lemma_fx_mul_bound(a as int, b as int, 0x8000_0000, 0x8000_0000);
        assert((0x8000_0000int * 0x8000_0000) / (FP as int) == 0x4000_0000_0000) by {
            lemma_div_multiples_vanish(0x4000_0000_0000, FP as int);
            assert(0x8000_0000int * 0x8000_0000 == (FP as int) * 0x4000_0000_0000) by (nonlinear_arith);
        }
    }
    let p: i64 = a * b;
    div_trunc(p, FP)
}

/// The fixed-point quotient, truncated toward zero.
pub fn fx_div(a: i64, b: i64) -> (r: i64)
    requires
        b >= 1,
        -0x4000_0000_0000 <= a <= 0x4000_0000_0000,
    ensures
        r == fx_div_s(a as int, b as int),
{
    let p: i64 = a * FP;
    div_trunc(p, b)
}

/// The nearest integer to a fixed-point value, halves rounding away
/// from zero.
pub fn fx_round(a: i64) -> (r: i64)
    requires
        -0x2000_0000_0000_0000 <= a <= 0x2000_0000_0000_0000,
    ensures
        r == fx_round_s(a as int),
        a >= 0 ==> 0 <= r <= a,
        a < 0 ==> a <= r <= 0,
{
    if a >= 0 {
        let q: u64 = ((a as u64) + 32768) / 65536;
        proof {
            lemma_div_pos_is_pos(a + 32768, FP as int);
            lemma_div_is_ordered(0, a + 32768, FP as int);
            if a >= 1 {
                assert((a + 32768) <= 65536 * a) by (nonlinear_arith)
                    requires
                        a >= 1,
                ;
                lemma_div_is_ordered(a + 32768, 65536 * a, FP as int);
                lemma_div_multiples_vanish(a as int, FP as int);
            } else {
                vstd::arithmetic::div_mod::lemma_basic_div(a + 32768, 65536);
            }
        }
        q as i64
    } else {
        let m: u64 = (((-a) as u64) + 32768) / 65536;
        proof {
            lemma_div_pos_is_pos(-a + 32768, FP as int);
            assert((-a + 32768) <= 65536 * (-a)) by (nonlinear_arith)
                requires
                    a <= -1,
            ;
            lemma_div_is_ordered(-a + 32768, 65536 * (-a), FP as int);
            lemma_div_multiples_vanish(-a as int, FP as int);
        }
        -(m as i64)
    }
}

} // verus!
