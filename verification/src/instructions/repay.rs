use vstd::prelude::*;
use crate::error::ErrorCode;
use crate::math::{lemma_mul_div_bounded, mul_div_floor};
use crate::shares::{amount_for_shares, amount_owned, shares_to_burn};
use crate::state::market::Market;
use crate::state::position::UserPosition;
use crate::state::AccountKey;
use crate::transfer::{Authority, Custody, Transfer, TransferOutcome};

verus! {

/// The record of a repayment that went through.
#[derive(Clone, Copy, Debug, PartialEq, Eq)]
pub struct RepayEvent {
    pub user: AccountKey,
    /// What was taken, which may be less than what was offered.
    pub amount: u64,
    pub shares: u64,
    pub timestamp: i64,
}

/// The records that a repayment reads and changes.
#[derive(Clone, Copy, Debug, PartialEq, Eq)]
pub struct Repay {
    pub market: Market,
    pub user_position: UserPosition,
}

/// A repayment that has passed every test that comes before its transfer.
#[derive(Clone, Copy, Debug, PartialEq, Eq)]
pub struct RepayPlan {
    /// The market with interest applied.
    pub market: Market,
    /// What the user's debt shares are worth.
    pub owed: u64,
    /// What is taken: the offer, capped at what is owed.
    pub repay_amount: u64,
    pub shares_to_burn: u64,
}

impl Repay {
    /// The repayment as it stands when the transfer is called for, or the
    /// error that stops it before.
    ///
    /// The amount offered is positive. Interest is applied. The user owes
    /// `floor(shares * total_borrows / total_borrow_shares)`. The smaller of
    /// the offer and the debt is taken, and `floor(taken * shares / owed)`
    /// shares burn; a user who owes nothing pays nothing and burns nothing.
    pub open spec fn ready(self, amount: u64, now: i64) -> Result<RepayPlan, ErrorCode> {
        let accrued = self.market.accrued(now);
        let market = accrued->Ok_0;
        let position = self.user_position;
        let owed = amount_owned(
            position.borrowed_shares,
            market.total_borrows,
            market.total_borrow_shares,
        );
        let taken = if amount <= owed->Ok_0 {
            amount
        } else {
            owed->Ok_0
        };
        let burned = if owed->Ok_0 == 0 {
            0
        } else {
            mul_div_floor(taken as int, position.borrowed_shares as int, owed->Ok_0 as int)
        };
        if amount == 0 {
            Err(ErrorCode::InvalidAmount)
        } else if accrued is Err {
            Err(accrued->Err_0)
        } else if owed is Err {
            Err(ErrorCode::MathOverflow)
        } else {
            Ok(
                RepayPlan {
                    market,
                    owed: owed->Ok_0,
                    repay_amount: taken,
                    shares_to_burn: burned as u64,
                },
            )
        }
    }

    /// The transfer that a repayment calls for: what is taken, from the user
    /// into the borrow vault, signed by the user. The amount is zero where
    /// the user owes nothing.
    pub open spec fn transfer_due(self, amount: u64, now: i64) -> Result<Transfer, ErrorCode> {
        match self.ready(amount, now) {
            Ok(plan) => Ok(
                Transfer {
                    from: Custody::User,
                    to: Custody::BorrowVault,
                    authority: Authority::Caller,
                    amount: plan.repay_amount,
                },
            ),
            Err(e) => Err(e),
        }
    }

    /// What a repayment offering `amount` at time `now` comes to, given the
    /// outcome of its transfer: the new records and the event, or the one
    /// error.
    ///
    /// An error that stops the repayment before the transfer is the same
    /// whatever the outcome says, since no transfer was called for. After a
    /// transfer that succeeded, what was taken comes off the user's recorded
    /// debt and the pool's debt, and the burned shares come off both share
    /// counts; each counter must hold what comes off it.
    pub open spec fn repaid(self, amount: u64, now: i64, transfer: TransferOutcome) -> Result<
        (Repay, RepayEvent),
        ErrorCode,
    > {
        let ready = self.ready(amount, now);
        let plan = ready->Ok_0;
        let position = self.user_position;
        if ready is Err {
            Err(ready->Err_0)
        } else if transfer is Err {
            Err(ErrorCode::TransferFailed(transfer->Err_0))
        } else if position.borrowed_sol < plan.repay_amount || plan.market.total_borrows
            < plan.repay_amount || plan.market.total_borrow_shares < plan.shares_to_burn {
            Err(ErrorCode::MathOverflow)
        } else {
            Ok(
                (
                    Repay {
                        market: Market {
                            total_borrows: (plan.market.total_borrows - plan.repay_amount) as u64,
                            total_borrow_shares: (plan.market.total_borrow_shares
                                - plan.shares_to_burn) as u64,
                            ..plan.market
                        },
                        user_position: UserPosition {
                            borrowed_sol: (position.borrowed_sol - plan.repay_amount) as u64,
                            borrowed_shares: (position.borrowed_shares
                                - plan.shares_to_burn) as u64,
                            last_update_timestamp: now,
                            ..position
                        },
                    },
                    RepayEvent {
                        user: position.owner,
                        amount: plan.repay_amount,
                        shares: plan.shares_to_burn,
                        timestamp: now,
                    },
                ),
            )
        }
    }

    fn plan(&self, amount: u64, now: i64) -> (r: Result<RepayPlan, ErrorCode>)
        ensures
            r == self.ready(amount, now),
            r matches Ok(plan) ==> plan.shares_to_burn <= self.user_position.borrowed_shares,
    {
        if amount == 0 {
            return Err(ErrorCode::InvalidAmount);
        }
        let mut market = self.market;
        market.accrue_interest(now)?;
        let owed: u64 = amount_for_shares(
            self.user_position.borrowed_shares,
            market.total_borrows,
            market.total_borrow_shares,
        )?;
        let repay_amount: u64 = if amount <= owed {
            amount
        } else {
            owed
        };
        proof {
            if owed > 0 {
                lemma_mul_div_bounded(
                    repay_amount as int,
                    self.user_position.borrowed_shares as int,
                    owed as int,
                );
            }
        }
        let burned: u64 = shares_to_burn(repay_amount, self.user_position.borrowed_shares, owed)?;
        Ok(RepayPlan { market, owed, repay_amount, shares_to_burn: burned })
    }

    /// Says which transfer a repayment offering `amount` at time `now` calls
    /// for, or why the repayment is rejected before any asset moves. Changes
    /// nothing.
    pub fn prepare(&self, amount: u64, now: i64) -> (r: Result<Transfer, ErrorCode>)
        ensures
            r == self.transfer_due(amount, now),
    {
        let plan = self.plan(amount, now)?;
        Ok(
            Transfer {
                from: Custody::User,
                to: Custody::BorrowVault,
                authority: Authority::Caller,
                amount: plan.repay_amount,
            },
        )
    }

    /// Repays up to `amount` at time `now`; `transfer` is the outcome of the
    /// transfer that `prepare` named.
    ///
    /// On success the records hold the lowered debt and the event is
    /// returned. On any error both records are as they were.
    pub fn repay(&mut self, amount: u64, now: i64, transfer: TransferOutcome) -> (r: Result<
        RepayEvent,
        ErrorCode,
    >)
        ensures
            match old(self).repaid(amount, now, transfer) {
                Ok((next, event)) => r == Ok::<RepayEvent, ErrorCode>(event) && *final(self)
                    == next,
                Err(e) => r == Err::<RepayEvent, ErrorCode>(e) && *final(self) == *old(self),
            },
            old(self).transfer_due(amount, now) matches Err(e) ==> r
                == Err::<RepayEvent, ErrorCode>(e),
            old(self).transfer_due(amount, now) is Ok ==> (transfer matches Err(failure) ==> r
                == Err::<RepayEvent, ErrorCode>(ErrorCode::TransferFailed(failure))),
            r is Err ==> *final(self) == *old(self),
            r matches Ok(event) ==> {
                &&& event.amount <= amount
                &&& event.shares <= old(self).user_position.borrowed_shares
                &&& old(self).transfer_due(amount, now) matches Ok(due)
                &&& event.amount == due.amount
                &&& old(self).market.accrued(now) matches Ok(market)
                &&& final(self).market.total_borrows == market.total_borrows - event.amount
                &&& final(self).market.total_borrow_shares == market.total_borrow_shares
                    - event.shares
                &&& final(self).user_position.borrowed_sol == old(self).user_position.borrowed_sol
                    - event.amount
                &&& final(self).user_position.borrowed_shares == old(
                    self,
                ).user_position.borrowed_shares - event.shares
            },
    {
        let plan = self.plan(amount, now)?;
        if let Err(failure) = transfer {
            return Err(ErrorCode::TransferFailed(failure));
        }
        let mut market = plan.market;
        let borrowed_sol: u64 = self.user_position.borrowed_sol.checked_sub(
            plan.repay_amount,
        ).ok_or(ErrorCode::MathOverflow)?;
        let borrowed_shares: u64 = self.user_position.borrowed_shares - plan.shares_to_burn;
        let total_borrows: u64 = market.total_borrows.checked_sub(plan.repay_amount).ok_or(
            ErrorCode::MathOverflow,
        )?;
        let total_borrow_shares: u64 = market.total_borrow_shares.checked_sub(
            plan.shares_to_burn,
        ).ok_or(ErrorCode::MathOverflow)?;
        market.total_borrows = total_borrows;
        market.total_borrow_shares = total_borrow_shares;
        self.market = market;
        self.user_position.borrowed_sol = borrowed_sol;
        self.user_position.borrowed_shares = borrowed_shares;
        self.user_position.last_update_timestamp = now;
        Ok(
            RepayEvent {
                user: self.user_position.owner,
                amount: plan.repay_amount,
                shares: plan.shares_to_burn,
                timestamp: now,
            },
        )
    }
}

/// A repayment never takes more than is offered nor more than is owed. A
/// user who owes nothing pays nothing and burns nothing. An offer that covers
/// the debt takes exactly the debt and burns every debt share the user
/// holds, so that nothing is owed afterwards.
pub proof fn lemma_repay_is_capped(repay: Repay, amount: u64, now: i64)
    requires
        repay.ready(amount, now) is Ok,
    ensures
        ({
            let plan = repay.ready(amount, now)->Ok_0;
            &&& repay.transfer_due(amount, now) matches Ok(due) && due.amount == plan.repay_amount
            &&& amount_owned(
                repay.user_position.borrowed_shares,
                plan.market.total_borrows,
                plan.market.total_borrow_shares,
            ) == Ok::<u64, ErrorCode>(plan.owed)
            &&& plan.repay_amount == if amount <= plan.owed {
                amount
            } else {
                plan.owed
            }
            &&& plan.shares_to_burn <= repay.user_position.borrowed_shares
            &&& plan.owed == 0 ==> plan.repay_amount == 0 && plan.shares_to_burn == 0
            &&& amount >= plan.owed > 0 ==> plan.shares_to_burn
                == repay.user_position.borrowed_shares
        }),
{
    let plan = repay.ready(amount, now)->Ok_0;
    let held = repay.user_position.borrowed_shares as int;
    let owed = plan.owed as int;
    if owed > 0 {
        lemma_mul_div_bounded(plan.repay_amount as int, held, owed);
        assert((owed * held) / owed == held) by (nonlinear_arith)
            requires
                owed > 0,
        ;
    }
}

} // verus!
