use vstd::prelude::*;
use crate::error::ErrorCode;

verus! {

/// `floor(a * b / d)` over the mathematical integers.
pub open spec fn mul_div_floor(a: int, b: int, d: int) -> int
    recommends
        d > 0,
{
    (a * b) / d
}

/// The product of two 64-bit values fits in 128 bits.
pub proof fn lemma_product_fits(a: u64, b: u64)
    ensures
        0 <= a * b <= u128::MAX,
{
    assert(0 <= a * b <= 0xffff_ffff_ffff_ffff * 0xffff_ffff_ffff_ffff) by (nonlinear_arith)
        requires
            0 <= a <= 0xffff_ffff_ffff_ffff,
            0 <= b <= 0xffff_ffff_ffff_ffff,
    ;
}

/// A part of a whole, scaled: for `0 <= a <= d`, `floor(a * b / d)` lies
/// between zero and `b`.
pub proof fn lemma_mul_div_bounded(a: int, b: int, d: int)
    requires
        0 <= a <= d,
        0 <= b,
        d > 0,
    ensures
        0 <= mul_div_floor(a, b, d) <= b,
{
    assert(0 <= (a * b) / d <= b) by (nonlinear_arith)
        requires
            0 <= a <= d,
            0 <= b,
            d > 0,
    ;
}

/// Rounding down never gives more than the exact quotient: for `d > 0`,
/// `floor(a * b / d) * d <= a * b`, and the loss is less than `d`.
pub proof fn lemma_mul_div_rounds_down(a: int, b: int, d: int)
    requires
        0 <= a,
        0 <= b,
        d > 0,
    ensures
        0 <= mul_div_floor(a, b, d),
        mul_div_floor(a, b, d) * d <= a * b < (mul_div_floor(a, b, d) + 1) * d,
{
    assert(0 <= a * b) by (nonlinear_arith)
        requires
            0 <= a,
            0 <= b,
    ;
    let p = a * b;
    assert(0 <= p / d && (p / d) * d <= p < (p / d + 1) * d) by (nonlinear_arith)
        requires
            0 <= p,
            d > 0,
    ;
}

/// Multiplies in 128 bits, divides rounding down, and narrows the quotient
/// back to 64 bits. A zero divisor and a quotient that does not fit are both
/// arithmetic failures.
pub fn mul_div(a: u64, b: u64, d: u64) -> (r: Result<u64, ErrorCode>)
    ensures
        r is Ok <==> d != 0 && mul_div_floor(a as int, b as int, d as int) <= u64::MAX,
        r matches Ok(q) ==> q == mul_div_floor(a as int, b as int, d as int),
        r matches Err(e) ==> e == ErrorCode::MathOverflow,
{
    if d == 0 {
        return Err(ErrorCode::MathOverflow);
    }
    proof {
        lemma_product_fits(a, b);
    }
    let product: u128 = (a as u128) * (b as u128);
    let quotient: u128 = product / (d as u128);
    if quotient > u64::MAX as u128 {
        Err(ErrorCode::MathOverflow)
    } else {
        Ok(quotient as u64)
    }
}

} // verus!
