use vstd::prelude::*;
use crate::error::ErrorCode;
use crate::shares::{shares_for_deposit, shares_minted};
use crate::state::market::Market;
use crate::state::position::UserPosition;
use crate::state::AccountKey;
use crate::transfer::{Authority, Custody, Transfer, TransferOutcome};

verus! {

/// The record of a deposit that went through.
#[derive(Clone, Copy, Debug, PartialEq, Eq)]
pub struct DepositEvent {
    pub user: AccountKey,
    pub amount: u64,
    pub shares: u64,
    pub timestamp: i64,
}

/// The records that a deposit of collateral reads and changes.
#[derive(Clone, Copy, Debug, PartialEq, Eq)]
pub struct Deposit {
    pub market: Market,
    pub user_position: UserPosition,
}

impl Deposit {
    /// The market as it stands when the transfer is called for: the amount is
    /// positive and interest has been applied.
    pub open spec fn ready(self, amount: u64, now: i64) -> Result<Market, ErrorCode> {
        if amount == 0 {
            Err(ErrorCode::InvalidAmount)
        } else {
            self.market.accrued(now)
        }
    }

    /// The transfer that a deposit of `amount` calls for: the whole amount,
    /// from the user into the deposit vault, signed by the user.
    pub open spec fn transfer_due(self, amount: u64, now: i64) -> Result<Transfer, ErrorCode> {
        match self.ready(amount, now) {
            Ok(_) => Ok(
                Transfer {
                    from: Custody::User,
                    to: Custody::DepositVault,
                    authority: Authority::Caller,
                    amount,
                },
            ),
            Err(e) => Err(e),
        }
    }

    /// What a deposit of `amount` at time `now` comes to, given the outcome
    /// of its transfer: the new records and the event, or the one error.
    ///
    /// An error that stops the deposit before the transfer is the same
    /// whatever the outcome says, since no transfer was called for. After a
    /// transfer that succeeded, the pool and the user both gain the amount,
    /// and both gain the shares minted against the pool's totals before the
    /// addition; each counter must have room for what it gains.
    pub open spec fn deposited(self, amount: u64, now: i64, transfer: TransferOutcome) -> Result<
        (Deposit, DepositEvent),
        ErrorCode,
    > {
        let ready = self.ready(amount, now);
        let market = ready->Ok_0;
        let position = self.user_position;
        let minted = shares_minted(amount, market.total_deposits, market.total_deposit_shares);
        let shares = minted->Ok_0;
        if ready is Err {
            Err(ready->Err_0)
        } else if transfer is Err {
            Err(ErrorCode::TransferFailed(transfer->Err_0))
        } else if minted is Err || market.total_deposits + amount > u64::MAX
            || market.total_deposit_shares + shares > u64::MAX || position.deposited_jito + amount
            > u64::MAX || position.deposited_shares + shares > u64::MAX {
            Err(ErrorCode::MathOverflow)
        } else {
            Ok(
                (
                    Deposit {
                        market: Market {
                            total_deposits: (market.total_deposits + amount) as u64,
                            total_deposit_shares: (market.total_deposit_shares + shares) as u64,
                            ..market
                        },
                        user_position: UserPosition {
                            deposited_jito: (position.deposited_jito + amount) as u64,
                            deposited_shares: (position.deposited_shares + shares) as u64,
                            last_update_timestamp: now,
                            ..position
                        },
                    },
                    DepositEvent { user: position.owner, amount, shares, timestamp: now },
                ),
            )
        }
    }

    /// Says which transfer a deposit of `amount` at time `now` calls for, or
    /// why the deposit is rejected before any asset moves. Changes nothing.
    pub fn prepare(&self, amount: u64, now: i64) -> (r: Result<Transfer, ErrorCode>)
        ensures
            r == self.transfer_due(amount, now),
    {
        if amount == 0 {
            return Err(ErrorCode::InvalidAmount);
        }
        let mut market = self.market;
        market.accrue_interest(now)?;
        Ok(
            Transfer {
                from: Custody::User,
                to: Custody::DepositVault,
                authority: Authority::Caller,
                amount,
            },
        )
    }

    /// Deposits `amount` of collateral at time `now`; `transfer` is the
    /// outcome of the transfer that `prepare` named.
    ///
    /// On success the records hold the new totals and the event is returned.
    /// On any error both records are as they were.
    pub fn deposit(&mut self, amount: u64, now: i64, transfer: TransferOutcome) -> (r: Result<
        DepositEvent,
        ErrorCode,
    >)
        ensures
            match old(self).deposited(amount, now, transfer) {
                Ok((next, event)) => r == Ok::<DepositEvent, ErrorCode>(event) && *final(self)
                    == next,
                Err(e) => r == Err::<DepositEvent, ErrorCode>(e) && *final(self) == *old(self),
            },
            old(self).transfer_due(amount, now) matches Err(e) ==> r
                == Err::<DepositEvent, ErrorCode>(e),
            old(self).transfer_due(amount, now) is Ok ==> (transfer matches Err(failure) ==> r
                == Err::<DepositEvent, ErrorCode>(ErrorCode::TransferFailed(failure))),
            r is Err ==> *final(self) == *old(self),
            r matches Ok(event) ==> {
                &&& event.amount == amount
                &&& old(self).market.accrued(now) matches Ok(market)
                &&& shares_minted(amount, market.total_deposits, market.total_deposit_shares)
                    == Ok::<u64, ErrorCode>(event.shares)
                &&& final(self).market.total_deposits == market.total_deposits + amount
                &&& final(self).market.total_deposit_shares == market.total_deposit_shares
                    + event.shares
                &&& final(self).user_position.deposited_jito == old(
                    self,
                ).user_position.deposited_jito + amount
                &&& final(self).user_position.deposited_shares == old(
                    self,
                ).user_position.deposited_shares + event.shares
            },
    {
        if amount == 0 {
            return Err(ErrorCode::InvalidAmount);
        }
        let mut market = self.market;
        market.accrue_interest(now)?;
        if let Err(failure) = transfer {
            return Err(ErrorCode::TransferFailed(failure));
        }
        let shares: u64 = shares_for_deposit(
            amount,
            market.total_deposits,
            market.total_deposit_shares,
        )?;
        let total_deposits: u64 = market.total_deposits.checked_add(amount).ok_or(
            ErrorCode::MathOverflow,
        )?;
        let deposited_jito: u64 = self.user_position.deposited_jito.checked_add(amount).ok_or(
            ErrorCode::MathOverflow,
        )?;
        let deposited_shares: u64 = self.user_position.deposited_shares.checked_add(shares).ok_or(
            ErrorCode::MathOverflow,
        )?;
        let total_deposit_shares: u64 = market.total_deposit_shares.checked_add(shares).ok_or(
            ErrorCode::MathOverflow,
        )?;
        market.total_deposits = total_deposits;
        market.total_deposit_shares = total_deposit_shares;
        self.market = market;
        self.user_position.deposited_jito = deposited_jito;
        self.user_position.deposited_shares = deposited_shares;
        self.user_position.last_update_timestamp = now;
        Ok(DepositEvent { user: self.user_position.owner, amount, shares, timestamp: now })
    }
}

} // verus!
