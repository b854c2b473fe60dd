use vstd::prelude::*;
use crate::state::market::Market;
use crate::state::AccountKey;

verus! {

/// The yearly borrow rate of a new market, in basis points: 5 %.
pub const DEFAULT_BORROW_RATE: u64 = 500;

/// The loan-to-value limit of a new market, in basis points: 70 %.
pub const DEFAULT_MAX_LTV: u64 = 7000;

/// The bump seeds found for the accounts that market creation derives.
#[derive(Clone, Copy, Debug, PartialEq, Eq)]
pub struct InitializeMarketBumps {
    pub market: u8,
}

/// The identities that a new market is bound to, and the record to fill.
#[derive(Clone, Copy, Debug, PartialEq, Eq)]
pub struct InitializeMarket {
    pub authority: AccountKey,
    pub deposit_vault: AccountKey,
    pub borrow_vault: AccountKey,
    pub market: Market,
}

impl InitializeMarket {
    /// The record of a market created at time `now`: bound to the authority
    /// and the two vaults, with empty pools, the default rate and limit, and
    /// interest accrued up to `now`.
    pub open spec fn new_market(self, bump: u8, now: i64) -> Market {
        Market {
            authority: self.authority,
            deposit_vault: self.deposit_vault,
            borrow_vault: self.borrow_vault,
            total_deposits: 0,
            total_borrows: 0,
            total_deposit_shares: 0,
            total_borrow_shares: 0,
            fixed_borrow_rate: DEFAULT_BORROW_RATE,
            max_ltv: DEFAULT_MAX_LTV,
            last_accrual_timestamp: now,
            bump,
        }
    }

    /// Fills the market record for a market created at time `now`.
    pub fn initialize_market(&mut self, bumps: &InitializeMarketBumps, now: i64)
        ensures
            final(self).market == old(self).new_market(bumps.market, now),
            final(self).authority == old(self).authority,
            final(self).deposit_vault == old(self).deposit_vault,
            final(self).borrow_vault == old(self).borrow_vault,
    {
        self.market.authority = self.authority;
        self.market.deposit_vault = self.deposit_vault;
        self.market.borrow_vault = self.borrow_vault;
        self.market.total_deposits = 0;
        self.market.total_borrows = 0;
        self.market.total_deposit_shares = 0;
        self.market.total_borrow_shares = 0;
        self.market.fixed_borrow_rate = DEFAULT_BORROW_RATE;
        self.market.max_ltv = DEFAULT_MAX_LTV;
        self.market.last_accrual_timestamp = now;
        self.market.bump = bumps.market;
    }
}

} // verus!
