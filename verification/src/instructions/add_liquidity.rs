use vstd::prelude::*;
use crate::error::ErrorCode;
use crate::state::market::Market;
use crate::state::AccountKey;
use crate::transfer::{Authority, Custody, Transfer, TransferOutcome};

verus! {

/// The record of liquidity that was added.
#[derive(Clone, Copy, Debug, PartialEq, Eq)]
pub struct AddLiquidityEvent {
    pub provider: AccountKey,
    pub amount: u64,
    pub timestamp: i64,
}

/// The market that receives liquidity, and who provides it.
#[derive(Clone, Copy, Debug, PartialEq, Eq)]
pub struct AddLiquidity {
    pub provider: AccountKey,
    pub market: Market,
}

impl AddLiquidity {
    /// The market as it stands when the transfer is called for: the amount is
    /// positive and interest has been applied.
    pub open spec fn ready(self, amount: u64, now: i64) -> Result<Market, ErrorCode> {
        if amount == 0 {
            Err(ErrorCode::InvalidAmount)
        } else {
            self.market.accrued(now)
        }
    }

    /// The transfer that adding `amount` of liquidity calls for: the whole
    /// amount, from the provider into the borrow vault, signed by the
    /// provider.
    pub open spec fn transfer_due(self, amount: u64, now: i64) -> Result<Transfer, ErrorCode> {
        match self.ready(amount, now) {
            Ok(_) => Ok(
                Transfer {
                    from: Custody::User,
                    to: Custody::BorrowVault,
                    authority: Authority::Caller,
                    amount,
                },
            ),
            Err(e) => Err(e),
        }
    }

    /// What adding `amount` of liquidity at time `now` comes to, given the
    /// outcome of its transfer. Liquidity mints no shares: the only change to
    /// the market is the interest applied on the way.
    pub open spec fn liquidity_added(
        self,
        amount: u64,
        now: i64,
        transfer: TransferOutcome,
    ) -> Result<(AddLiquidity, AddLiquidityEvent), ErrorCode> {
        let ready = self.ready(amount, now);
        if ready is Err {
            Err(ready->Err_0)
        } else if transfer is Err {
            Err(ErrorCode::TransferFailed(transfer->Err_0))
        } else {
            Ok(
                (
                    AddLiquidity { provider: self.provider, market: ready->Ok_0 },
                    AddLiquidityEvent { provider: self.provider, amount, timestamp: now },
                ),
            )
        }
    }

    /// Says which transfer adding `amount` of liquidity at time `now` calls
    /// for, or why it is rejected before any asset moves. Changes nothing.
    pub fn prepare(&self, amount: u64, now: i64) -> (r: Result<Transfer, ErrorCode>)
        ensures
            r == self.transfer_due(amount, now),
    {
        if amount == 0 {
            return Err(ErrorCode::InvalidAmount);
        }
        let mut market = self.market;
        market.accrue_interest(now)?;
        Ok(
            Transfer {
                from: Custody::User,
                to: Custody::BorrowVault,
                authority: Authority::Caller,
                amount,
            },
        )
    }

    /// Adds `amount` of liquidity to the borrow vault at time `now`;
    /// `transfer` is the outcome of the transfer that `prepare` named.
    ///
    /// On success the market holds the accrued debt and the event is
    /// returned. On any error the market is as it was.
    pub fn add_liquidity(&mut self, amount: u64, now: i64, transfer: TransferOutcome) -> (r: Result<
        AddLiquidityEvent,
        ErrorCode,
    >)
        ensures
            match old(self).liquidity_added(amount, now, transfer) {
                Ok((next, event)) => r == Ok::<AddLiquidityEvent, ErrorCode>(event) && *final(self)
                    == next,
                Err(e) => r == Err::<AddLiquidityEvent, ErrorCode>(e) && *final(self) == *old(
                    self,
                ),
            },
            old(self).transfer_due(amount, now) matches Err(e) ==> r
                == Err::<AddLiquidityEvent, ErrorCode>(e),
            old(self).transfer_due(amount, now) is Ok ==> (transfer matches Err(failure) ==> r
                == Err::<AddLiquidityEvent, ErrorCode>(ErrorCode::TransferFailed(failure))),
            r is Err ==> *final(self) == *old(self),
            r matches Ok(event) ==> {
                &&& event.amount == amount
                &&& old(self).market.accrued(now) == Ok::<Market, ErrorCode>(final(self).market)
            },
    {
        if amount == 0 {
            return Err(ErrorCode::InvalidAmount);
        }
        let mut market = self.market;
        market.accrue_interest(now)?;
        if let Err(failure) = transfer {
            return Err(ErrorCode::TransferFailed(failure));
        }
        self.market = market;
        Ok(AddLiquidityEvent { provider: self.provider, amount, timestamp: now })
    }
}

} // verus!
