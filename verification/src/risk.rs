use vstd::prelude::*;
use crate::error::ErrorCode;
use crate::math::lemma_product_fits;

verus! {

/// Basis points in 100 %.
pub const BPS_SCALE: u64 = 10_000;

/// Whether `debt_amount` against `collateral_amount` stays within a
/// loan-to-value limit of `max_ltv_bps` basis points. A debt exactly at the
/// limit is within it.
pub open spec fn within_ltv(collateral_amount: u64, debt_amount: u64, max_ltv_bps: u64) -> bool {
    debt_amount * BPS_SCALE <= collateral_amount * max_ltv_bps
}

/// Accepts a position whose debt is within the limit, and rejects any other.
pub fn check_ltv(collateral_amount: u64, debt_amount: u64, max_ltv_bps: u64) -> (r: Result<
    (),
    ErrorCode,
>)
    ensures
        r is Ok <==> within_ltv(collateral_amount, debt_amount, max_ltv_bps),
        r matches Err(e) ==> e == ErrorCode::ExceedsMaximumLtv,
{
    proof {
        lemma_product_fits(debt_amount, BPS_SCALE);
        lemma_product_fits(collateral_amount, max_ltv_bps);
    }
    let scaled_debt: u128 = (debt_amount as u128) * (BPS_SCALE as u128);
    let allowed: u128 = (collateral_amount as u128) * (max_ltv_bps as u128);
    if scaled_debt <= allowed {
        Ok(())
    } else {
        Err(ErrorCode::ExceedsMaximumLtv)
    }
}

} // verus!
