//! What every sequence of operations on a ledger conserves.

use vstd::prelude::*;
use crate::accrual::{interest_factor, lemma_accrual_never_lowers_debt};
use crate::instructions::Repay;
use crate::ledger::{sum_by, Ledger, Pool, Step};
use crate::math::{lemma_mul_div_bounded, lemma_mul_div_rounds_down, mul_div_floor};
use crate::shares::worth;
use crate::state::market::Market;
use crate::state::position::UserPosition;

verus! {

/// Replacing one position changes the sum by the difference at that position.
pub proof fn lemma_sum_update(
    positions: Seq<UserPosition>,
    f: spec_fn(UserPosition) -> int,
    user: int,
    position: UserPosition,
)
    requires
        0 <= user < positions.len(),
    ensures
        sum_by(positions.update(user, position), f) == sum_by(positions, f) - f(positions[user])
            + f(position),
    decreases positions.len(),
{
    let updated = positions.update(user, position);
    if user == positions.len() - 1 {
        assert(updated.drop_last() =~= positions.drop_last());
    } else {
        lemma_sum_update(positions.drop_last(), f, user, position);
        assert(updated.drop_last() =~= positions.drop_last().update(user, position));
    }
}

/// Two measures that agree on every position have the same sum.
pub proof fn lemma_sum_agrees(
    positions: Seq<UserPosition>,
    f: spec_fn(UserPosition) -> int,
    g: spec_fn(UserPosition) -> int,
)
    requires
        forall|i: int| 0 <= i < positions.len() ==> f(#[trigger] positions[i]) == g(positions[i]),
    ensures
        sum_by(positions, f) == sum_by(positions, g),
    decreases positions.len(),
{
    if positions.len() > 0 {
        let rest = positions.drop_last();
        assert forall|i: int| 0 <= i < rest.len() implies f(#[trigger] rest[i]) == g(rest[i]) by {
            assert(rest[i] == positions[i]);
        }
        lemma_sum_agrees(rest, f, g);
        assert(positions.last() == positions[positions.len() - 1]);
    }
}

/// A sum of zeros is zero.
proof fn lemma_sum_of_zeros(positions: Seq<UserPosition>)
    ensures
        sum_by(positions, |p: UserPosition| 0int) == 0,
    decreases positions.len(),
{
    if positions.len() > 0 {
        lemma_sum_of_zeros(positions.drop_last());
    }
}

/// The shares that positions hold together are never negative.
proof fn lemma_shares_held_nonnegative(positions: Seq<UserPosition>, pool: Pool)
    ensures
        0 <= sum_by(positions, |p: UserPosition| pool.shares_of(p)),
    decreases positions.len(),
{
    if positions.len() > 0 {
        lemma_shares_held_nonnegative(positions.drop_last(), pool);
    }
}

/// No position holds more than all positions hold together.
proof fn lemma_holding_within_sum(positions: Seq<UserPosition>, pool: Pool, user: int)
    requires
        0 <= user < positions.len(),
    ensures
        0 <= pool.shares_of(positions[user]) <= sum_by(
            positions,
            |p: UserPosition| pool.shares_of(p),
        ),
    decreases positions.len(),
{
    let rest = positions.drop_last();
    if user == positions.len() - 1 {
        lemma_shares_held_nonnegative(rest, pool);
    } else {
        lemma_holding_within_sum(rest, pool, user);
        assert(rest[user] == positions[user]);
    }
}

/// Over any positions, the claims on a pool with shares, multiplied by the
/// pool's shares, come to no more than the shares held multiplied by the
/// pool's value: each claim was rounded down.
proof fn lemma_claims_scaled(positions: Seq<UserPosition>, pool: Pool, market: Market)
    requires
        pool.total_shares(market) > 0,
    ensures
        0 <= sum_by(positions, |p: UserPosition| pool.claim_of(market, p)),
        0 <= sum_by(positions, |p: UserPosition| pool.shares_of(p)),
        sum_by(positions, |p: UserPosition| pool.claim_of(market, p)) * pool.total_shares(market)
            <= sum_by(positions, |p: UserPosition| pool.shares_of(p)) * pool.total_amount(market),
    decreases positions.len(),
{
    let claim = |p: UserPosition| pool.claim_of(market, p);
    let shares = |p: UserPosition| pool.shares_of(p);
    let total = pool.total_amount(market);
    let count = pool.total_shares(market);
    if positions.len() > 0 {
        let rest = positions.drop_last();
        let last = positions.last();
        lemma_claims_scaled(rest, pool, market);
        lemma_mul_div_rounds_down(pool.shares_of(last), total, count);
        let c = sum_by(rest, claim);
        let h = sum_by(rest, shares);
        let cl = claim(last);
        let sl = shares(last);
        assert((c + cl) * count <= (h + sl) * total) by (nonlinear_arith)
            requires
                c * count <= h * total,
                cl * count <= sl * total,
        ;
    } else {
        assert(0 * count <= 0 * total) by (nonlinear_arith);
    }
}

/// Rounding favours the pool: where the positions hold no more shares of a
/// pool than the market counts, what their shares are worth together is no
/// more than the pool's value.
pub proof fn lemma_claims_within_pool(ledger: Ledger, pool: Pool)
    requires
        ledger.shares_held(pool) <= pool.total_shares(ledger.market),
    ensures
        0 <= ledger.claims(pool) <= pool.total_amount(ledger.market),
{
    let market = ledger.market;
    let total = pool.total_amount(market);
    let count = pool.total_shares(market);
    if count > 0 {
        lemma_claims_scaled(ledger.positions, pool, market);
        let c = ledger.claims(pool);
        let h = ledger.shares_held(pool);
        assert(c <= total) by (nonlinear_arith)
            requires
                c * count <= h * total,
                0 <= h <= count,
                0 <= total,
                count > 0,
        ;
    } else {
        lemma_sum_agrees(
            ledger.positions,
            |p: UserPosition| pool.claim_of(market, p),
            |p: UserPosition| 0int,
        );
        lemma_sum_of_zeros(ledger.positions);
    }
}

/// In a deposit pool at par whose shares are all held by positions, the
/// positions' claims add up to exactly the pool's collateral: nothing is lost
/// to rounding and nothing is created.
pub proof fn lemma_claims_at_par(ledger: Ledger)
    requires
        ledger.deposits_at_par(),
        ledger.shares_held(Pool::Deposits) == ledger.market.total_deposit_shares,
    ensures
        ledger.claims(Pool::Deposits) == ledger.market.total_deposits,
{
    let market = ledger.market;
    let pool = Pool::Deposits;
    let count = market.total_deposit_shares as int;
    if count > 0 {
        assert forall|i: int| 0 <= i < ledger.positions.len() implies pool.claim_of(
            market,
            #[trigger] ledger.positions[i],
        ) == pool.shares_of(ledger.positions[i]) by {
            let held = pool.shares_of(ledger.positions[i]);
            assert((held * count) / count == held) by (nonlinear_arith)
                requires
                    count > 0,
            ;
        }
        lemma_sum_agrees(
            ledger.positions,
            |p: UserPosition| pool.claim_of(market, p),
            |p: UserPosition| pool.shares_of(p),
        );
    } else {
        lemma_sum_agrees(
            ledger.positions,
            |p: UserPosition| pool.claim_of(market, p),
            |p: UserPosition| 0int,
        );
        lemma_sum_of_zeros(ledger.positions);
    }
}

/// What the positions hold and record after the market and one position
/// are replaced.
proof fn lemma_with(ledger: Ledger, market: Market, user: int, position: UserPosition, pool: Pool)
    requires
        0 <= user < ledger.positions.len(),
    ensures
        ledger.with(market, user, position).shares_held(pool) == ledger.shares_held(pool)
            - pool.shares_of(ledger.positions[user]) + pool.shares_of(position),
        ledger.with(market, user, position).principal(pool) == ledger.principal(pool)
            - pool.principal_of(ledger.positions[user]) + pool.principal_of(position),
{
    lemma_sum_update(ledger.positions, |p: UserPosition| pool.shares_of(p), user, position);
    lemma_sum_update(ledger.positions, |p: UserPosition| pool.principal_of(p), user, position);
}

/// No operation, whether it succeeds or fails, loses track of a share:
/// where the positions held exactly the shares that the market counts, they
/// still do after it.
pub proof fn lemma_step_keeps_shares_accounted(ledger: Ledger, step: Step)
    requires
        ledger.shares_accounted(),
    ensures
        ledger.step(step).shares_accounted(),
{
    let next = ledger.step(step);
    if next != ledger {
        match step {
            Step::Deposit { user, amount, now, transfer } => {
                lemma_accrual_never_lowers_debt(ledger.market, now);
                lemma_with(ledger, next.market, user, next.positions[user], Pool::Deposits);
                lemma_with(ledger, next.market, user, next.positions[user], Pool::Borrows);
            },
            Step::Withdraw { user, amount, now, transfer } => {
                lemma_accrual_never_lowers_debt(ledger.market, now);
                let held = ledger.positions[user].deposited_shares as int;
                let owned = Pool::Deposits.claim_of(ledger.market, ledger.positions[user]);
                lemma_mul_div_bounded(amount as int, held, owned);
                lemma_with(ledger, next.market, user, next.positions[user], Pool::Deposits);
                lemma_with(ledger, next.market, user, next.positions[user], Pool::Borrows);
            },
            Step::Borrow { user, amount, now, vault_balance, transfer } => {
                lemma_accrual_never_lowers_debt(ledger.market, now);
                lemma_with(ledger, next.market, user, next.positions[user], Pool::Deposits);
                lemma_with(ledger, next.market, user, next.positions[user], Pool::Borrows);
            },
            Step::Repay { user, amount, now, transfer } => {
                lemma_accrual_never_lowers_debt(ledger.market, now);
                let plan = (Repay {
                    market: ledger.market,
                    user_position: ledger.positions[user],
                }).ready(amount, now)->Ok_0;
                let held = ledger.positions[user].borrowed_shares as int;
                if plan.owed > 0 {
                    lemma_mul_div_bounded(plan.repay_amount as int, held, plan.owed as int);
                }
                lemma_with(ledger, next.market, user, next.positions[user], Pool::Deposits);
                lemma_with(ledger, next.market, user, next.positions[user], Pool::Borrows);
            },
            Step::AddLiquidity { provider, amount, now, transfer } => {
                lemma_accrual_never_lowers_debt(ledger.market, now);
            },
        }
    }
}

/// No operation, whether it succeeds or fails, breaks the books: where the
/// collateral in the pool was what the positions record, it still is after
/// it, and where the pool's debt covered what the positions record as drawn,
/// it still does.
pub proof fn lemma_step_keeps_principal_accounted(ledger: Ledger, step: Step)
    requires
        ledger.principal_accounted(),
    ensures
        ledger.step(step).principal_accounted(),
{
    let next = ledger.step(step);
    if next != ledger {
        match step {
            Step::Deposit { user, amount, now, transfer } => {
                lemma_accrual_never_lowers_debt(ledger.market, now);
                lemma_with(ledger, next.market, user, next.positions[user], Pool::Deposits);
                lemma_with(ledger, next.market, user, next.positions[user], Pool::Borrows);
            },
            Step::Withdraw { user, amount, now, transfer } => {
                lemma_accrual_never_lowers_debt(ledger.market, now);
                lemma_with(ledger, next.market, user, next.positions[user], Pool::Deposits);
                lemma_with(ledger, next.market, user, next.positions[user], Pool::Borrows);
            },
            Step::Borrow { user, amount, now, vault_balance, transfer } => {
                lemma_accrual_never_lowers_debt(ledger.market, now);
                lemma_with(ledger, next.market, user, next.positions[user], Pool::Deposits);
                lemma_with(ledger, next.market, user, next.positions[user], Pool::Borrows);
            },
            Step::Repay { user, amount, now, transfer } => {
                lemma_accrual_never_lowers_debt(ledger.market, now);
                lemma_with(ledger, next.market, user, next.positions[user], Pool::Deposits);
                lemma_with(ledger, next.market, user, next.positions[user], Pool::Borrows);
            },
            Step::AddLiquidity { provider, amount, now, transfer } => {
                lemma_accrual_never_lowers_debt(ledger.market, now);
            },
        }
    }
}

/// No operation takes the deposit pool off par: where it held one unit of
/// collateral per share before, it does so after. At par a deposit mints one
/// share per unit and a withdrawal burns one share per unit.
pub proof fn lemma_step_keeps_par(ledger: Ledger, step: Step)
    requires
        ledger.deposits_at_par(),
    ensures
        ledger.step(step).deposits_at_par(),
{
    let next = ledger.step(step);
    if next != ledger {
        match step {
            Step::Deposit { user, amount, now, transfer } => {
                lemma_accrual_never_lowers_debt(ledger.market, now);
                let count = ledger.market.total_deposit_shares as int;
                if count > 0 {
                    assert(mul_div_floor(amount as int, count, count) == amount)
                        by (nonlinear_arith)
                        requires
                            count > 0,
                    ;
                }
            },
            Step::Withdraw { user, amount, now, transfer } => {
                lemma_accrual_never_lowers_debt(ledger.market, now);
                let count = ledger.market.total_deposit_shares as int;
                let held = ledger.positions[user].deposited_shares as int;
                if count > 0 {
                    assert(mul_div_floor(held, count, count) == held) by (nonlinear_arith)
                        requires
                            count > 0,
                    ;
                    assert(mul_div_floor(amount as int, held, held) == amount) by (nonlinear_arith)
                        requires
                            held > 0,
                    ;
                }
            },
            Step::Borrow { user, amount, now, vault_balance, transfer } => {
                lemma_accrual_never_lowers_debt(ledger.market, now);
            },
            Step::Repay { user, amount, now, transfer } => {
                lemma_accrual_never_lowers_debt(ledger.market, now);
            },
            Step::AddLiquidity { provider, amount, now, transfer } => {
                lemma_accrual_never_lowers_debt(ledger.market, now);
            },
        }
    }
}

/// Interest keeps a pool without debt without debt, and a pool with debt in
/// debt; it touches neither the shares nor the deposits.
proof fn lemma_accrual_keeps_debt_consistent(market: Market, now: i64)
    requires
        market.accrued(now) is Ok,
    ensures
        ({
            let after = market.accrued(now)->Ok_0;
            &&& after.total_borrows == 0 <==> market.total_borrows == 0
            &&& after.total_borrow_shares == market.total_borrow_shares
            &&& after.total_deposits == market.total_deposits
            &&& after.total_deposit_shares == market.total_deposit_shares
        }),
{
    lemma_accrual_never_lowers_debt(market, now);
    let elapsed = now - market.last_accrual_timestamp;
    if market.total_borrows == 0 {
        assert(0 * interest_factor(market.fixed_borrow_rate as int, elapsed) == 0);
    }
}

/// Value that leaves a pool takes its shares along: where a holder of `held`
/// of the pool's shares takes out `taken`, no more than the shares are
/// worth, the pool runs out of value exactly when it runs out of shares.
proof fn lemma_removal_keeps_consistency(
    held: int,
    total_amount: int,
    total_shares: int,
    taken: int,
)
    requires
        0 <= held <= total_shares,
        0 < total_amount,
        0 < total_shares,
        0 <= taken <= worth(held, total_amount, total_shares),
    ensures
        worth(held, total_amount, total_shares) <= total_amount,
        ({
            let owned = worth(held, total_amount, total_shares);
            let burned = if owned == 0 {
                0
            } else {
                mul_div_floor(taken, held, owned)
            };
            &&& 0 <= burned <= held
            &&& total_amount - taken == 0 <==> total_shares - burned == 0
        }),
{
    let owned = worth(held, total_amount, total_shares);
    lemma_mul_div_bounded(held, total_amount, total_shares);
    lemma_mul_div_rounds_down(held, total_amount, total_shares);
    if owned > 0 {
        lemma_mul_div_bounded(taken, held, owned);
        lemma_mul_div_rounds_down(taken, held, owned);
        let burned = mul_div_floor(taken, held, owned);
        if taken == total_amount {
            // The holder owns the whole pool, so holds every share.
            assert(held == total_shares) by (nonlinear_arith)
                requires
                    owned * total_shares <= held * total_amount,
                    owned == total_amount,
                    0 <= held <= total_shares,
                    0 < total_amount,
            ;
            assert((total_amount * total_shares) / total_amount == total_shares)
                by (nonlinear_arith)
                requires
                    0 < total_amount,
            ;
        }
        if burned == total_shares {
            // Every share burns, so the holder held them all and took all.
            assert(held == total_shares);
            assert((total_shares * total_amount) / total_shares == total_amount)
                by (nonlinear_arith)
                requires
                    0 < total_shares,
            ;
            assert(owned == total_amount);
            assert(taken == total_amount) by (nonlinear_arith)
                requires
                    burned * owned <= taken * held,
                    burned == held,
                    held == total_shares,
                    owned == total_amount,
                    0 < total_shares,
                    0 <= taken <= total_amount,
            ;
        }
    }
}

/// No operation leaves a pool with shares and no value, or with value and no
/// shares: where the positions hold exactly the shares that the market
/// counts and each pool has value exactly when it has shares, each pool
/// still does after the operation.
pub proof fn lemma_step_keeps_pools_consistent(ledger: Ledger, step: Step)
    requires
        ledger.shares_accounted(),
        ledger.pools_consistent(),
    ensures
        ledger.step(step).pools_consistent(),
{
    let next = ledger.step(step);
    if next != ledger {
        match step {
            Step::Deposit { user, amount, now, transfer } => {
                lemma_accrual_keeps_debt_consistent(ledger.market, now);
            },
            Step::Withdraw { user, amount, now, transfer } => {
                lemma_accrual_keeps_debt_consistent(ledger.market, now);
                lemma_holding_within_sum(ledger.positions, Pool::Deposits, user);
                lemma_removal_keeps_consistency(
                    ledger.positions[user].deposited_shares as int,
                    ledger.market.total_deposits as int,
                    ledger.market.total_deposit_shares as int,
                    amount as int,
                );
            },
            Step::Borrow { user, amount, now, vault_balance, transfer } => {
                lemma_accrual_keeps_debt_consistent(ledger.market, now);
            },
            Step::Repay { user, amount, now, transfer } => {
                lemma_accrual_keeps_debt_consistent(ledger.market, now);
                let accrued = ledger.market.accrued(now)->Ok_0;
                let plan = (Repay {
                    market: ledger.market,
                    user_position: ledger.positions[user],
                }).ready(amount, now)->Ok_0;
                lemma_holding_within_sum(ledger.positions, Pool::Borrows, user);
                if accrued.total_borrow_shares > 0 {
                    lemma_removal_keeps_consistency(
                        ledger.positions[user].borrowed_shares as int,
                        accrued.total_borrows as int,
                        accrued.total_borrow_shares as int,
                        plan.repay_amount as int,
                    );
                }
            },
            Step::AddLiquidity { provider, amount, now, transfer } => {
                lemma_accrual_keeps_debt_consistent(ledger.market, now);
            },
        }
    }
}

/// Rounding never creates value. Where the positions hold exactly the
/// shares that the market counts, every sequence of operations, in any
/// order, at any times, whatever their transfers came to, keeps that; and the
/// positions' claims on either pool never add up to more than the pool
/// holds.
pub proof fn lemma_run_never_creates_value(ledger: Ledger, steps: Seq<Step>)
    requires
        ledger.shares_accounted(),
    ensures
        ledger.run(steps).shares_accounted(),
        0 <= ledger.run(steps).claims(Pool::Deposits) <= ledger.run(steps).market.total_deposits,
        0 <= ledger.run(steps).claims(Pool::Borrows) <= ledger.run(steps).market.total_borrows,
    decreases steps.len(),
{
    if steps.len() > 0 {
        lemma_run_never_creates_value(ledger, steps.drop_last());
        lemma_step_keeps_shares_accounted(ledger.run(steps.drop_last()), steps.last());
    }
    lemma_claims_within_pool(ledger.run(steps), Pool::Deposits);
    lemma_claims_within_pool(ledger.run(steps), Pool::Borrows);
}

/// Every sequence of operations keeps the books: the collateral in the pool
/// stays what the positions record, and the pool's debt keeps covering what
/// the positions record as drawn.
pub proof fn lemma_run_keeps_principal_accounted(ledger: Ledger, steps: Seq<Step>)
    requires
        ledger.principal_accounted(),
    ensures
        ledger.run(steps).principal_accounted(),
    decreases steps.len(),
{
    if steps.len() > 0 {
        lemma_run_keeps_principal_accounted(ledger, steps.drop_last());
        lemma_step_keeps_principal_accounted(ledger.run(steps.drop_last()), steps.last());
    }
}

/// Every sequence of operations keeps each pool's value and shares together:
/// where the positions hold exactly the shares that the market counts, a
/// pool that had value exactly when it had shares still has.
pub proof fn lemma_run_keeps_pools_consistent(ledger: Ledger, steps: Seq<Step>)
    requires
        ledger.shares_accounted(),
        ledger.pools_consistent(),
    ensures
        ledger.run(steps).shares_accounted(),
        ledger.run(steps).pools_consistent(),
    decreases steps.len(),
{
    if steps.len() > 0 {
        lemma_run_keeps_pools_consistent(ledger, steps.drop_last());
        lemma_step_keeps_shares_accounted(ledger.run(steps.drop_last()), steps.last());
        lemma_step_keeps_pools_consistent(ledger.run(steps.drop_last()), steps.last());
    }
}

/// Collateral is conserved. Where the positions hold exactly the deposit
/// shares that the market counts and the deposit pool is at par, every
/// sequence of operations keeps both, and the positions' claims on the
/// deposit pool add up to exactly the pool's collateral.
pub proof fn lemma_run_conserves(ledger: Ledger, steps: Seq<Step>)
    requires
        ledger.shares_accounted(),
        ledger.deposits_at_par(),
    ensures
        ledger.run(steps).shares_accounted(),
        ledger.run(steps).deposits_at_par(),
        ledger.run(steps).claims(Pool::Deposits) == ledger.run(steps).market.total_deposits,
    decreases steps.len(),
{
    if steps.len() > 0 {
        lemma_run_conserves(ledger, steps.drop_last());
        lemma_step_keeps_shares_accounted(ledger.run(steps.drop_last()), steps.last());
        lemma_step_keeps_par(ledger.run(steps.drop_last()), steps.last());
    }
    lemma_claims_at_par(ledger.run(steps));
}

/// A newly opened ledger has its accounts in order, its deposit pool at par
/// and both pools consistent.
pub proof fn lemma_opened_in_order(ledger: Ledger)
    requires
        ledger.opened(),
    ensures
        ledger.shares_accounted(),
        ledger.principal_accounted(),
        ledger.deposits_at_par(),
        ledger.pools_consistent(),
{
    let zero = |p: UserPosition| 0int;
    lemma_sum_of_zeros(ledger.positions);
    lemma_sum_agrees(ledger.positions, |p: UserPosition| Pool::Deposits.shares_of(p), zero);
    lemma_sum_agrees(ledger.positions, |p: UserPosition| Pool::Borrows.shares_of(p), zero);
    lemma_sum_agrees(ledger.positions, |p: UserPosition| Pool::Deposits.principal_of(p), zero);
    lemma_sum_agrees(ledger.positions, |p: UserPosition| Pool::Borrows.principal_of(p), zero);
}

/// From the opening of a market on, whatever deposits, withdrawals, loans,
/// repayments and additions of liquidity follow, in any order, with or
/// without interest in between: the collateral in the pool is exactly what
/// the users' shares are worth together, and exactly what their positions
/// record; what their debt shares are worth together is no more than the
/// pool's debt; every share that the market counts is held by a position;
/// and each pool has value exactly when it has shares.
pub proof fn lemma_conservation(ledger: Ledger, steps: Seq<Step>)
    requires
        ledger.opened(),
    ensures
        ledger.run(steps).claims(Pool::Deposits) == ledger.run(steps).market.total_deposits,
        0 <= ledger.run(steps).claims(Pool::Borrows) <= ledger.run(steps).market.total_borrows,
        ledger.run(steps).shares_accounted(),
        ledger.run(steps).principal_accounted(),
        ledger.run(steps).deposits_at_par(),
        ledger.run(steps).pools_consistent(),
{
    lemma_opened_in_order(ledger);
    lemma_run_conserves(ledger, steps);
    lemma_run_never_creates_value(ledger, steps);
    lemma_run_keeps_principal_accounted(ledger, steps);
    lemma_run_keeps_pools_consistent(ledger, steps);
}

} // verus!
