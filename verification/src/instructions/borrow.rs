use vstd::prelude::*;
use crate::error::ErrorCode;
use crate::risk::{check_ltv, within_ltv};
use crate::shares::{shares_for_deposit, shares_minted};
use crate::state::market::Market;
use crate::state::position::UserPosition;
use crate::state::AccountKey;
use crate::transfer::{Authority, Custody, Transfer, TransferOutcome};

verus! {

/// The record of a loan that went through.
#[derive(Clone, Copy, Debug, PartialEq, Eq)]
pub struct BorrowEvent {
    pub user: AccountKey,
    pub amount: u64,
    pub shares: u64,
    pub timestamp: i64,
}

/// The records that a loan reads and changes, and the balance of the vault
/// that pays it out.
#[derive(Clone, Copy, Debug, PartialEq, Eq)]
pub struct Borrow {
    pub market: Market,
    pub user_position: UserPosition,
    /// What the borrow vault holds when the loan is asked for.
    pub borrow_vault_balance: u64,
}

/// A loan that has passed every test that comes before its transfer.
#[derive(Clone, Copy, Debug, PartialEq, Eq)]
pub struct BorrowPlan {
    /// The market with interest applied.
    pub market: Market,
    /// The position with the debt and the debt shares already added.
    pub user_position: UserPosition,
    /// The pool's debt once the loan is out.
    pub total_borrows: u64,
    pub shares: u64,
}

impl Borrow {
    /// The loan as it stands when the transfer is called for, or the error
    /// that stops it before.
    ///
    /// The amount is positive. Interest is applied. The vault holds the
    /// amount. The user's recorded debt with the amount added stays within
    /// the loan-to-value limit against the user's recorded collateral. The
    /// loan mints debt shares against the pool's debt before the loan, and
    /// the new debt and shares fit their counters.
    pub open spec fn ready(self, amount: u64, now: i64) -> Result<BorrowPlan, ErrorCode> {
        let accrued = self.market.accrued(now);
        let market = accrued->Ok_0;
        let position = self.user_position;
        let debt = position.borrowed_sol + amount;
        let minted = shares_minted(amount, market.total_borrows, market.total_borrow_shares);
        if amount == 0 {
            Err(ErrorCode::InvalidAmount)
        } else if accrued is Err {
            Err(accrued->Err_0)
        } else if self.borrow_vault_balance < amount {
            Err(ErrorCode::InsufficientLiquidity)
        } else if debt > u64::MAX {
            Err(ErrorCode::MathOverflow)
        } else if !within_ltv(position.deposited_jito, debt as u64, market.max_ltv) {
            Err(ErrorCode::ExceedsMaximumLtv)
        } else if market.total_borrows + amount > u64::MAX || minted is Err
            || position.borrowed_shares + minted->Ok_0 > u64::MAX {
            Err(ErrorCode::MathOverflow)
        } else {
            Ok(
                BorrowPlan {
                    market,
                    user_position: UserPosition {
                        borrowed_sol: debt as u64,
                        borrowed_shares: (position.borrowed_shares + minted->Ok_0) as u64,
                        ..position
                    },
                    total_borrows: (market.total_borrows + amount) as u64,
                    shares: minted->Ok_0,
                },
            )
        }
    }

    /// The transfer that a loan of `amount` calls for: the whole amount, from
    /// the borrow vault to the user, signed by the pool and not by the user.
    pub open spec fn transfer_due(self, amount: u64, now: i64) -> Result<Transfer, ErrorCode> {
        match self.ready(amount, now) {
            Ok(_) => Ok(
                Transfer {
                    from: Custody::BorrowVault,
                    to: Custody::User,
                    authority: Authority::Market,
                    amount,
                },
            ),
            Err(e) => Err(e),
        }
    }

    /// What a loan of `amount` at time `now` comes to, given the outcome of
    /// its transfer: the new records and the event, or the one error.
    ///
    /// An error that stops the loan before the transfer is the same whatever
    /// the outcome says, since no transfer was called for. After a transfer
    /// that succeeded, the pool records the new debt and the minted shares,
    /// which must fit. The vault balance is an input; it is not rewritten.
    pub open spec fn borrowed(self, amount: u64, now: i64, transfer: TransferOutcome) -> Result<
        (Borrow, BorrowEvent),
        ErrorCode,
    > {
        let ready = self.ready(amount, now);
        let plan = ready->Ok_0;
        if ready is Err {
            Err(ready->Err_0)
        } else if transfer is Err {
            Err(ErrorCode::TransferFailed(transfer->Err_0))
        } else if plan.market.total_borrow_shares + plan.shares > u64::MAX {
            Err(ErrorCode::MathOverflow)
        } else {
            Ok(
                (
                    Borrow {
                        market: Market {
                            total_borrows: plan.total_borrows,
                            total_borrow_shares: (plan.market.total_borrow_shares
                                + plan.shares) as u64,
                            ..plan.market
                        },
                        user_position: UserPosition {
                            last_update_timestamp: now,
                            ..plan.user_position
                        },
                        borrow_vault_balance: self.borrow_vault_balance,
                    },
                    BorrowEvent {
                        user: self.user_position.owner,
                        amount,
                        shares: plan.shares,
                        timestamp: now,
                    },
                ),
            )
        }
    }

    fn plan(&self, amount: u64, now: i64) -> (r: Result<BorrowPlan, ErrorCode>)
        ensures
            r == self.ready(amount, now),
    {
        if amount == 0 {
            return Err(ErrorCode::InvalidAmount);
        }
        let mut market = self.market;
        market.accrue_interest(now)?;
        if self.borrow_vault_balance < amount {
            return Err(ErrorCode::InsufficientLiquidity);
        }
        let debt: u64 = self.user_position.borrowed_sol.checked_add(amount).ok_or(
            ErrorCode::MathOverflow,
        )?;
        check_ltv(self.user_position.deposited_jito, debt, market.max_ltv)?;
        let total_borrows: u64 = market.total_borrows.checked_add(amount).ok_or(
            ErrorCode::MathOverflow,
        )?;
        let shares: u64 = shares_for_deposit(
            amount,
            market.total_borrows,
            market.total_borrow_shares,
        )?;
        let borrowed_shares: u64 = self.user_position.borrowed_shares.checked_add(shares).ok_or(
            ErrorCode::MathOverflow,
        )?;
        let mut user_position = self.user_position;
        user_position.borrowed_sol = debt;
        user_position.borrowed_shares = borrowed_shares;
        Ok(BorrowPlan { market, user_position, total_borrows, shares })
    }

    /// Says which transfer a loan of `amount` at time `now` calls for, or why
    /// the loan is rejected before any asset moves. Changes nothing.
    pub fn prepare(&self, amount: u64, now: i64) -> (r: Result<Transfer, ErrorCode>)
        ensures
            r == self.transfer_due(amount, now),
    {
        let _ = self.plan(amount, now)?;
        Ok(
            Transfer {
                from: Custody::BorrowVault,
                to: Custody::User,
                authority: Authority::Market,
                amount,
            },
        )
    }

    /// Borrows `amount` at time `now`; `transfer` is the outcome of the
    /// transfer that `prepare` named.
    ///
    /// On success the records hold the new debt and the event is returned.
    /// On any error, a failed transfer among them, everything is as it was.
    pub fn borrow(&mut self, amount: u64, now: i64, transfer: TransferOutcome) -> (r: Result<
        BorrowEvent,
        ErrorCode,
    >)
        ensures
            match old(self).borrowed(amount, now, transfer) {
                Ok((next, event)) => r == Ok::<BorrowEvent, ErrorCode>(event) && *final(self)
                    == next,
                Err(e) => r == Err::<BorrowEvent, ErrorCode>(e) && *final(self) == *old(self),
            },
            old(self).transfer_due(amount, now) matches Err(e) ==> r
                == Err::<BorrowEvent, ErrorCode>(e),
            old(self).transfer_due(amount, now) is Ok ==> (transfer matches Err(failure) ==> r
                == Err::<BorrowEvent, ErrorCode>(ErrorCode::TransferFailed(failure))),
            r is Err ==> *final(self) == *old(self),
            r matches Ok(event) ==> {
                &&& event.amount == amount
                &&& amount <= old(self).borrow_vault_balance
                &&& old(self).market.accrued(now) matches Ok(market)
                &&& shares_minted(amount, market.total_borrows, market.total_borrow_shares)
                    == Ok::<u64, ErrorCode>(event.shares)
                &&& final(self).market.total_borrows == market.total_borrows + amount
                &&& final(self).market.total_borrow_shares == market.total_borrow_shares
                    + event.shares
                &&& final(self).user_position.borrowed_sol == old(self).user_position.borrowed_sol
                    + amount
                &&& final(self).user_position.borrowed_shares == old(
                    self,
                ).user_position.borrowed_shares + event.shares
                &&& within_ltv(
                    final(self).user_position.deposited_jito,
                    final(self).user_position.borrowed_sol,
                    final(self).market.max_ltv,
                )
            },
    {
        let plan = self.plan(amount, now)?;
        if let Err(failure) = transfer {
            return Err(ErrorCode::TransferFailed(failure));
        }
        let mut market = plan.market;
        let total_borrow_shares: u64 = market.total_borrow_shares.checked_add(plan.shares).ok_or(
            ErrorCode::MathOverflow,
        )?;
        market.total_borrows = plan.total_borrows;
        market.total_borrow_shares = total_borrow_shares;
        self.market = market;
        self.user_position = plan.user_position;
        self.user_position.last_update_timestamp = now;
        Ok(
            BorrowEvent {
                user: self.user_position.owner,
                amount,
                shares: plan.shares,
                timestamp: now,
            },
        )
    }
}

} // verus!
