use vstd::prelude::*;
use crate::error::ErrorCode;
use crate::math::{lemma_mul_div_bounded, mul_div_floor};
use crate::risk::{check_ltv, within_ltv};
use crate::shares::{amount_for_shares, amount_owned, shares_to_burn};
use crate::state::market::Market;
use crate::state::position::UserPosition;
use crate::state::AccountKey;
use crate::transfer::{Authority, Custody, Transfer, TransferOutcome};

verus! {

/// The record of a withdrawal that went through.
#[derive(Clone, Copy, Debug, PartialEq, Eq)]
pub struct WithdrawEvent {
    pub user: AccountKey,
    pub amount: u64,
    pub shares: u64,
    pub timestamp: i64,
}

/// The records that a withdrawal of collateral reads and changes.
#[derive(Clone, Copy, Debug, PartialEq, Eq)]
pub struct Withdraw {
    pub market: Market,
    pub user_position: UserPosition,
}

/// A withdrawal that has passed every test that comes before its transfer.
#[derive(Clone, Copy, Debug, PartialEq, Eq)]
pub struct WithdrawPlan {
    /// The market with interest applied.
    pub market: Market,
    /// The position with the collateral and the shares already taken off.
    pub user_position: UserPosition,
    pub shares_to_burn: u64,
}

impl Withdraw {
    /// The withdrawal as it stands when the transfer is called for, or the
    /// error that stops it before.
    ///
    /// The amount is positive. Interest is applied. The user's shares are
    /// worth `floor(shares * total_deposits / total_deposit_shares)`, which
    /// is at least the amount. `floor(amount * shares / worth)` shares burn.
    /// The user's recorded collateral covers the amount, and a position with
    /// debt stays within the loan-to-value limit with what remains.
    pub open spec fn ready(self, amount: u64, now: i64) -> Result<WithdrawPlan, ErrorCode> {
        let accrued = self.market.accrued(now);
        let market = accrued->Ok_0;
        let position = self.user_position;
        let owned = amount_owned(
            position.deposited_shares,
            market.total_deposits,
            market.total_deposit_shares,
        );
        let burned = mul_div_floor(
            amount as int,
            position.deposited_shares as int,
            owned->Ok_0 as int,
        );
        let remaining = position.deposited_jito - amount;
        if amount == 0 {
            Err(ErrorCode::InvalidAmount)
        } else if accrued is Err {
            Err(accrued->Err_0)
        } else if owned is Err {
            Err(ErrorCode::MathOverflow)
        } else if owned->Ok_0 < amount {
            Err(ErrorCode::InvalidAmount)
        } else if remaining < 0 {
            Err(ErrorCode::MathOverflow)
        } else if position.borrowed_sol > 0 && !within_ltv(
            remaining as u64,
            position.borrowed_sol,
            market.max_ltv,
        ) {
            Err(ErrorCode::ExceedsMaximumLtv)
        } else {
            Ok(
                WithdrawPlan {
                    market,
                    user_position: UserPosition {
                        deposited_jito: remaining as u64,
                        deposited_shares: (position.deposited_shares - burned) as u64,
                        ..position
                    },
                    shares_to_burn: burned as u64,
                },
            )
        }
    }

    /// The transfer that a withdrawal of `amount` calls for: the whole
    /// amount, from the deposit vault to the user, signed by the pool.
    pub open spec fn transfer_due(self, amount: u64, now: i64) -> Result<Transfer, ErrorCode> {
        match self.ready(amount, now) {
            Ok(_) => Ok(
                Transfer {
                    from: Custody::DepositVault,
                    to: Custody::User,
                    authority: Authority::Market,
                    amount,
                },
            ),
            Err(e) => Err(e),
        }
    }

    /// What a withdrawal of `amount` at time `now` comes to, given the
    /// outcome of its transfer: the new records and the event, or the one
    /// error.
    ///
    /// An error that stops the withdrawal before the transfer is the same
    /// whatever the outcome says, since no transfer was called for. After a
    /// transfer that succeeded, the pool gives up the amount and the burned
    /// shares, both of which it must hold.
    pub open spec fn withdrawn(self, amount: u64, now: i64, transfer: TransferOutcome) -> Result<
        (Withdraw, WithdrawEvent),
        ErrorCode,
    > {
        let ready = self.ready(amount, now);
        let plan = ready->Ok_0;
        if ready is Err {
            Err(ready->Err_0)
        } else if transfer is Err {
            Err(ErrorCode::TransferFailed(transfer->Err_0))
        } else if plan.market.total_deposits < amount || plan.market.total_deposit_shares
            < plan.shares_to_burn {
            Err(ErrorCode::MathOverflow)
        } else {
            Ok(
                (
                    Withdraw {
                        market: Market {
                            total_deposits: (plan.market.total_deposits - amount) as u64,
                            total_deposit_shares: (plan.market.total_deposit_shares
                                - plan.shares_to_burn) as u64,
                            ..plan.market
                        },
                        user_position: UserPosition {
                            last_update_timestamp: now,
                            ..plan.user_position
                        },
                    },
                    WithdrawEvent {
                        user: self.user_position.owner,
                        amount,
                        shares: plan.shares_to_burn,
                        timestamp: now,
                    },
                ),
            )
        }
    }

    fn plan(&self, amount: u64, now: i64) -> (r: Result<WithdrawPlan, ErrorCode>)
        ensures
            r == self.ready(amount, now),
            r matches Ok(plan) ==> plan.user_position.deposited_shares
                == self.user_position.deposited_shares - plan.shares_to_burn,
    {
        if amount == 0 {
            return Err(ErrorCode::InvalidAmount);
        }
        let mut market = self.market;
        market.accrue_interest(now)?;
        let owned: u64 = amount_for_shares(
            self.user_position.deposited_shares,
            market.total_deposits,
            market.total_deposit_shares,
        )?;
        if owned < amount {
            return Err(ErrorCode::InvalidAmount);
        }
        proof {
            lemma_mul_div_bounded(
                amount as int,
                self.user_position.deposited_shares as int,
                owned as int,
            );
        }
        let burned: u64 = shares_to_burn(amount, self.user_position.deposited_shares, owned)?;
        let deposited_jito: u64 = self.user_position.deposited_jito.checked_sub(amount).ok_or(
            ErrorCode::MathOverflow,
        )?;
        let deposited_shares: u64 = self.user_position.deposited_shares - burned;
        if self.user_position.borrowed_sol > 0 {
            check_ltv(deposited_jito, self.user_position.borrowed_sol, market.max_ltv)?;
        }
        let mut user_position = self.user_position;
        user_position.deposited_jito = deposited_jito;
        user_position.deposited_shares = deposited_shares;
        Ok(WithdrawPlan { market, user_position, shares_to_burn: burned })
    }

    /// Says which transfer a withdrawal of `amount` at time `now` calls for,
    /// or why the withdrawal is rejected before any asset moves. Changes
    /// nothing.
    pub fn prepare(&self, amount: u64, now: i64) -> (r: Result<Transfer, ErrorCode>)
        ensures
            r == self.transfer_due(amount, now),
    {
        let _ = self.plan(amount, now)?;
        Ok(
            Transfer {
                from: Custody::DepositVault,
                to: Custody::User,
                authority: Authority::Market,
                amount,
            },
        )
    }

    /// Withdraws `amount` of collateral at time `now`; `transfer` is the
    /// outcome of the transfer that `prepare` named.
    ///
    /// On success the records hold the new totals and the event is returned.
    /// On any error both records are as they were.
    pub fn withdraw(&mut self, amount: u64, now: i64, transfer: TransferOutcome) -> (r: Result<
        WithdrawEvent,
        ErrorCode,
    >)
        ensures
            match old(self).withdrawn(amount, now, transfer) {
                Ok((next, event)) => r == Ok::<WithdrawEvent, ErrorCode>(event) && *final(self)
                    == next,
                Err(e) => r == Err::<WithdrawEvent, ErrorCode>(e) && *final(self) == *old(self),
            },
            old(self).transfer_due(amount, now) matches Err(e) ==> r
                == Err::<WithdrawEvent, ErrorCode>(e),
            old(self).transfer_due(amount, now) is Ok ==> (transfer matches Err(failure) ==> r
                == Err::<WithdrawEvent, ErrorCode>(ErrorCode::TransferFailed(failure))),
            r is Err ==> *final(self) == *old(self),
            r matches Ok(event) ==> {
                &&& event.amount == amount
                &&& event.shares <= old(self).user_position.deposited_shares
                &&& final(self).market.total_deposits == old(self).market.total_deposits - amount
                &&& final(self).market.total_deposit_shares == old(self).market.total_deposit_shares
                    - event.shares
                &&& final(self).user_position.deposited_jito == old(
                    self,
                ).user_position.deposited_jito - amount
                &&& final(self).user_position.deposited_shares == old(
                    self,
                ).user_position.deposited_shares - event.shares
                &&& final(self).user_position.borrowed_sol > 0 ==> within_ltv(
                    final(self).user_position.deposited_jito,
                    final(self).user_position.borrowed_sol,
                    final(self).market.max_ltv,
                )
            },
    {
        let plan = self.plan(amount, now)?;
        if let Err(failure) = transfer {
            return Err(ErrorCode::TransferFailed(failure));
        }
        let mut market = plan.market;
        let total_deposits: u64 = market.total_deposits.checked_sub(amount).ok_or(
            ErrorCode::MathOverflow,
        )?;
        let total_deposit_shares: u64 = market.total_deposit_shares.checked_sub(
            plan.shares_to_burn,
        ).ok_or(ErrorCode::MathOverflow)?;
        market.total_deposits = total_deposits;
        market.total_deposit_shares = total_deposit_shares;
        self.market = market;
        self.user_position = plan.user_position;
        self.user_position.last_update_timestamp = now;
        Ok(
            WithdrawEvent {
                user: self.user_position.owner,
                amount,
                shares: plan.shares_to_burn,
                timestamp: now,
            },
        )
    }
}

} // verus!
