use vstd::prelude::*;
use crate::state::AccountKey;

verus! {

/// The pool-wide record of one market.
#[derive(Clone, Copy, Debug, PartialEq, Eq)]
pub struct Market {
    pub authority: AccountKey,
    /// Custody account of the deposited collateral.
    pub deposit_vault: AccountKey,
    /// Custody account of the asset that can be borrowed.
    pub borrow_vault: AccountKey,
    /// Collateral held by the pool.
    pub total_deposits: u64,
    /// Outstanding debt, accrued interest included.
    pub total_borrows: u64,
    pub total_deposit_shares: u64,
    pub total_borrow_shares: u64,
    /// Yearly interest rate in basis points.
    pub fixed_borrow_rate: u64,
    /// Highest debt-to-collateral ratio in basis points.
    pub max_ltv: u64,
    /// Time at which interest was last applied.
    pub last_accrual_timestamp: i64,
    pub bump: u8,
}

} // verus!
