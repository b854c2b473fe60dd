use vstd::prelude::*;
use crate::error::ErrorCode;
use crate::math::{lemma_mul_div_bounded, lemma_mul_div_rounds_down, mul_div, mul_div_floor};

verus! {

/// A quotient as a stored 64-bit count; one that does not fit is an
/// arithmetic failure, never clamped.
pub open spec fn narrowed(q: int) -> Result<u64, ErrorCode> {
    if 0 <= q <= u64::MAX {
        Ok(q as u64)
    } else {
        Err(ErrorCode::MathOverflow)
    }
}

/// Shares minted for `amount` added to a pool that held `total_amount`
/// against `total_shares` before the addition.
///
/// The first entrant gets one share per unit. Later entrants get
/// `floor(amount * total_shares / total_amount)`. A pool with shares but no
/// value cannot price a share.
pub open spec fn shares_minted(amount: u64, total_amount: u64, total_shares: u64) -> Result<
    u64,
    ErrorCode,
> {
    if total_shares == 0 {
        Ok(amount)
    } else if total_amount == 0 {
        Err(ErrorCode::MathOverflow)
    } else {
        narrowed(mul_div_floor(amount as int, total_shares as int, total_amount as int))
    }
}

/// The value that `shares` stand for in a pool of `total_amount` and
/// `total_shares`, over the mathematical integers:
/// `floor(shares * total_amount / total_shares)`, and nothing in a pool
/// without shares.
pub open spec fn worth(shares: int, total_amount: int, total_shares: int) -> int {
    if total_shares == 0 {
        0
    } else {
        mul_div_floor(shares, total_amount, total_shares)
    }
}

/// The value that `shares` stand for, as a stored amount.
pub open spec fn amount_owned(shares: u64, total_amount: u64, total_shares: u64) -> Result<
    u64,
    ErrorCode,
> {
    narrowed(worth(shares as int, total_amount as int, total_shares as int))
}

/// Shares that leave a holder of `user_shares`, worth `user_amount`, when
/// `amount` of that value is taken out:
/// `floor(amount * user_shares / user_amount)`, and none where the holder
/// owns nothing.
pub open spec fn shares_burned(amount: u64, user_shares: u64, user_amount: u64) -> Result<
    u64,
    ErrorCode,
> {
    if user_amount == 0 {
        Ok(0u64)
    } else {
        narrowed(mul_div_floor(amount as int, user_shares as int, user_amount as int))
    }
}

/// Computes the shares to mint for an addition of `amount`; the totals are
/// those before the addition.
pub fn shares_for_deposit(amount: u64, total_amount: u64, total_shares: u64) -> (r: Result<
    u64,
    ErrorCode,
>)
    ensures
        r == shares_minted(amount, total_amount, total_shares),
{
    if total_shares == 0 {
        Ok(amount)
    } else {
        mul_div(amount, total_shares, total_amount)
    }
}

/// Computes the value that a holder's shares stand for.
pub fn amount_for_shares(shares: u64, total_amount: u64, total_shares: u64) -> (r: Result<
    u64,
    ErrorCode,
>)
    ensures
        r == amount_owned(shares, total_amount, total_shares),
{
    if total_shares == 0 {
        Ok(0)
    } else {
        mul_div(shares, total_amount, total_shares)
    }
}

/// Computes the shares to burn when `amount` of a holder's value leaves.
pub fn shares_to_burn(amount: u64, user_shares: u64, user_amount: u64) -> (r: Result<
    u64,
    ErrorCode,
>)
    ensures
        r == shares_burned(amount, user_shares, user_amount),
{
    if user_amount == 0 {
        Ok(0)
    } else {
        mul_div(amount, user_shares, user_amount)
    }
}

/// Minting rounds in the pool's favour: the shares minted for an addition to
/// a pool with shares are worth no more than the addition, both at the
/// pool's totals before it and at the totals after it.
pub proof fn lemma_minted_shares_favor_pool(amount: u64, total_amount: u64, total_shares: u64)
    requires
        total_shares > 0,
        shares_minted(amount, total_amount, total_shares) is Ok,
    ensures
        ({
            let minted = shares_minted(amount, total_amount, total_shares)->Ok_0;
            &&& minted * total_amount <= amount * total_shares
            &&& worth(minted as int, total_amount + amount, total_shares + minted) <= amount
        }),
{
    let minted = shares_minted(amount, total_amount, total_shares)->Ok_0 as int;
    let a = amount as int;
    let t = total_amount as int;
    let s = total_shares as int;
    lemma_mul_div_rounds_down(a, s, t);
    assert(minted * (t + a) <= a * (s + minted)) by (nonlinear_arith)
        requires
            minted * t <= a * s,
    ;
    let value = minted * (t + a);
    assert(value / (s + minted) <= a) by (nonlinear_arith)
        requires
            value <= a * (s + minted),
            s + minted > 0,
    ;
}

/// Whoever holds every share of a pool owns the whole pool, and whoever
/// holds a part of the shares owns no more than the pool.
pub proof fn lemma_worth_within_pool(shares: int, total_amount: int, total_shares: int)
    requires
        0 <= shares <= total_shares,
        0 <= total_amount,
    ensures
        0 <= worth(shares, total_amount, total_shares) <= total_amount,
        total_shares > 0 ==> worth(total_shares, total_amount, total_shares) == total_amount,
{
    if total_shares > 0 {
        lemma_mul_div_bounded(shares, total_amount, total_shares);
        assert((total_shares * total_amount) / total_shares == total_amount) by (nonlinear_arith)
            requires
                total_shares > 0,
        ;
    }
}

} // verus!
