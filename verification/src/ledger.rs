//! The whole of one market as a mathematical object: the market record and
//! the positions of all its users, and the operations as steps from one such
//! ledger to the next.

use vstd::prelude::*;
use crate::instructions::{AddLiquidity, Borrow, Deposit, Repay, Withdraw};
use crate::shares::worth;
use crate::state::market::Market;
use crate::state::position::UserPosition;
use crate::state::AccountKey;
use crate::transfer::TransferOutcome;

verus! {

/// One of the two pools of a market.
pub enum Pool {
    /// The collateral that depositors supplied.
    Deposits,
    /// The debt that borrowers owe.
    Borrows,
}

impl Pool {
    /// The pool's total value as the market records it.
    pub open spec fn total_amount(self, market: Market) -> int {
        match self {
            Pool::Deposits => market.total_deposits as int,
            Pool::Borrows => market.total_borrows as int,
        }
    }

    /// The pool's outstanding shares as the market records them.
    pub open spec fn total_shares(self, market: Market) -> int {
        match self {
            Pool::Deposits => market.total_deposit_shares as int,
            Pool::Borrows => market.total_borrow_shares as int,
        }
    }

    /// The shares of the pool that a position holds.
    pub open spec fn shares_of(self, position: UserPosition) -> int {
        match self {
            Pool::Deposits => position.deposited_shares as int,
            Pool::Borrows => position.borrowed_shares as int,
        }
    }

    /// What a position put into the pool and has not taken out again, as the
    /// position records it.
    pub open spec fn principal_of(self, position: UserPosition) -> int {
        match self {
            Pool::Deposits => position.deposited_jito as int,
            Pool::Borrows => position.borrowed_sol as int,
        }
    }

    /// What a position's shares of the pool are worth at the market's totals.
    pub open spec fn claim_of(self, market: Market, position: UserPosition) -> int {
        worth(self.shares_of(position), self.total_amount(market), self.total_shares(market))
    }

    /// A pool has value exactly when it has shares.
    pub open spec fn consistent(self, market: Market) -> bool {
        self.total_shares(market) == 0 <==> self.total_amount(market) == 0
    }
}

/// The sum of `f` over the positions.
pub open spec fn sum_by(positions: Seq<UserPosition>, f: spec_fn(UserPosition) -> int) -> int
    decreases positions.len(),
{
    if positions.len() == 0 {
        0
    } else {
        sum_by(positions.drop_last(), f) + f(positions.last())
    }
}

/// A market and the positions of all its users.
pub struct Ledger {
    pub market: Market,
    pub positions: Seq<UserPosition>,
}

/// One operation on a ledger, with everything that decides its result: the
/// user's index among the positions, the amount, the time, and the outcome
/// of the transfer.
pub enum Step {
    Deposit { user: int, amount: u64, now: i64, transfer: TransferOutcome },
    Withdraw { user: int, amount: u64, now: i64, transfer: TransferOutcome },
    Borrow { user: int, amount: u64, now: i64, vault_balance: u64, transfer: TransferOutcome },
    Repay { user: int, amount: u64, now: i64, transfer: TransferOutcome },
    AddLiquidity { provider: AccountKey, amount: u64, now: i64, transfer: TransferOutcome },
}

impl Ledger {
    /// The shares of a pool that all positions hold together.
    pub open spec fn shares_held(self, pool: Pool) -> int {
        sum_by(self.positions, |p: UserPosition| pool.shares_of(p))
    }

    /// What all positions' shares of a pool are worth together.
    pub open spec fn claims(self, pool: Pool) -> int {
        sum_by(self.positions, |p: UserPosition| pool.claim_of(self.market, p))
    }

    /// What all positions record as put into a pool and not taken out.
    pub open spec fn principal(self, pool: Pool) -> int {
        sum_by(self.positions, |p: UserPosition| pool.principal_of(p))
    }

    /// The ledger with one position and the market replaced.
    pub open spec fn with(self, market: Market, user: int, position: UserPosition) -> Ledger {
        Ledger { market, positions: self.positions.update(user, position) }
    }

    /// The ledger after one operation. An operation that fails, or that names
    /// a user who has no position, leaves the ledger as it is.
    pub open spec fn step(self, step: Step) -> Ledger {
        match step {
            Step::Deposit { user, amount, now, transfer } => {
                let outcome = (Deposit {
                    market: self.market,
                    user_position: self.positions[user],
                }).deposited(amount, now, transfer);
                if 0 <= user < self.positions.len() && outcome is Ok {
                    self.with(outcome->Ok_0.0.market, user, outcome->Ok_0.0.user_position)
                } else {
                    self
                }
            },
            Step::Withdraw { user, amount, now, transfer } => {
                let outcome = (Withdraw {
                    market: self.market,
                    user_position: self.positions[user],
                }).withdrawn(amount, now, transfer);
                if 0 <= user < self.positions.len() && outcome is Ok {
                    self.with(outcome->Ok_0.0.market, user, outcome->Ok_0.0.user_position)
                } else {
                    self
                }
            },
            Step::Borrow { user, amount, now, vault_balance, transfer } => {
                let outcome = (Borrow {
                    market: self.market,
                    user_position: self.positions[user],
                    borrow_vault_balance: vault_balance,
                }).borrowed(amount, now, transfer);
                if 0 <= user < self.positions.len() && outcome is Ok {
                    self.with(outcome->Ok_0.0.market, user, outcome->Ok_0.0.user_position)
                } else {
                    self
                }
            },
            Step::Repay { user, amount, now, transfer } => {
                let outcome = (Repay {
                    market: self.market,
                    user_position: self.positions[user],
                }).repaid(amount, now, transfer);
                if 0 <= user < self.positions.len() && outcome is Ok {
                    self.with(outcome->Ok_0.0.market, user, outcome->Ok_0.0.user_position)
                } else {
                    self
                }
            },
            Step::AddLiquidity { provider, amount, now, transfer } => {
                let outcome = (AddLiquidity { provider, market: self.market }).liquidity_added(
                    amount,
                    now,
                    transfer,
                );
                if outcome is Ok {
                    Ledger { market: outcome->Ok_0.0.market, positions: self.positions }
                } else {
                    self
                }
            },
        }
    }

    /// The ledger after a sequence of operations, first to last.
    pub open spec fn run(self, steps: Seq<Step>) -> Ledger
        decreases steps.len(),
    {
        if steps.len() == 0 {
            self
        } else {
            self.run(steps.drop_last()).step(steps.last())
        }
    }

    /// The positions hold exactly the shares of each pool that the market
    /// counts.
    pub open spec fn shares_accounted(self) -> bool {
        &&& self.shares_held(Pool::Deposits) == self.market.total_deposit_shares
        &&& self.shares_held(Pool::Borrows) == self.market.total_borrow_shares
    }

    /// The collateral in the pool is what the positions record, and the
    /// pool's debt is at least what the positions record as drawn.
    pub open spec fn principal_accounted(self) -> bool {
        &&& self.principal(Pool::Deposits) == self.market.total_deposits
        &&& self.principal(Pool::Borrows) <= self.market.total_borrows
    }

    /// The deposit pool holds one unit of collateral per share.
    pub open spec fn deposits_at_par(self) -> bool {
        self.market.total_deposits == self.market.total_deposit_shares
    }

    /// Each of the two pools has value exactly when it has shares.
    pub open spec fn pools_consistent(self) -> bool {
        &&& Pool::Deposits.consistent(self.market)
        &&& Pool::Borrows.consistent(self.market)
    }

    /// A ledger on which nothing has happened yet: both pools are empty and
    /// every position holds nothing.
    pub open spec fn opened(self) -> bool {
        &&& self.market.total_deposits == 0
        &&& self.market.total_deposit_shares == 0
        &&& self.market.total_borrows == 0
        &&& self.market.total_borrow_shares == 0
        &&& forall|i: int|
            0 <= i < self.positions.len() ==> {
                &&& (#[trigger] self.positions[i]).deposited_jito == 0
                &&& self.positions[i].deposited_shares == 0
                &&& self.positions[i].borrowed_sol == 0
                &&& self.positions[i].borrowed_shares == 0
            }
    }
}

} // verus!
