use vstd::prelude::*;
use crate::error::ErrorCode;
use crate::state::market::Market;

verus! {

/// Basis points in 100 %, times the seconds of a year of 365 days: the
/// divisor that turns a yearly rate in basis points, multiplied by elapsed
/// seconds, into multiples of the principal.
pub const RATE_DENOMINATOR: u64 = 315_360_000_000;

/// `floor(rate_bps * elapsed / (10000 * 365 * 86400))`: how many times the
/// principal the rate yields over `elapsed` seconds, rounded down.
pub open spec fn interest_factor(rate_bps: int, elapsed: int) -> int {
    (rate_bps * elapsed) / (RATE_DENOMINATOR as int)
}

/// Simple interest on `principal` at a yearly `rate_bps` over `elapsed`
/// seconds: the principal times the rounded-down factor.
pub open spec fn simple_interest(principal: int, rate_bps: int, elapsed: int) -> int {
    principal * interest_factor(rate_bps, elapsed)
}

impl Market {
    /// The market after interest has been applied at time `now`, or the error
    /// with which accrual fails.
    ///
    /// The elapsed time must fit in 64 bits. No time elapsed, or a clock that
    /// went backwards, changes nothing. Otherwise the debt grows by the
    /// interest, which must fit, and the accrual time becomes `now`.
    pub open spec fn accrued(self, now: i64) -> Result<Market, ErrorCode> {
        let elapsed = now - self.last_accrual_timestamp;
        let owed = self.total_borrows + simple_interest(
            self.total_borrows as int,
            self.fixed_borrow_rate as int,
            elapsed,
        );
        if elapsed < i64::MIN || elapsed > i64::MAX {
            Err(ErrorCode::MathOverflow)
        } else if elapsed <= 0 {
            Ok(self)
        } else if owed > u64::MAX {
            Err(ErrorCode::MathOverflow)
        } else {
            Ok(Market { total_borrows: owed as u64, last_accrual_timestamp: now, ..self })
        }
    }

    /// Applies the interest that is due at time `now` to the pool's debt.
    pub fn accrue_interest(&mut self, now: i64) -> (r: Result<(), ErrorCode>)
        ensures
            match old(self).accrued(now) {
                Ok(market) => r is Ok && *final(self) == market,
                Err(e) => r == Err::<(), ErrorCode>(e) && *final(self) == *old(self),
            },
    {
        let elapsed: i64 = match now.checked_sub(self.last_accrual_timestamp) {
            Some(elapsed) => elapsed,
            None => {
                return Err(ErrorCode::MathOverflow);
            },
        };
        if elapsed <= 0 {
            return Ok(());
        }
        if self.total_borrows > 0 {
            let principal: u64 = self.total_borrows;
            let rate: u64 = self.fixed_borrow_rate;
            assert(0 <= rate * elapsed <= u128::MAX) by (nonlinear_arith)
                requires
                    0 <= rate <= u64::MAX,
                    0 < elapsed <= i64::MAX,
            ;
            let factor: u128 = (rate as u128) * (elapsed as u128) / (RATE_DENOMINATOR as u128);
            assert(factor == interest_factor(rate as int, elapsed as int));
            let interest: u128 = match (principal as u128).checked_mul(factor) {
                Some(interest) => interest,
                None => {
                    return Err(ErrorCode::MathOverflow);
                },
            };
            if interest > (u64::MAX - principal) as u128 {
                return Err(ErrorCode::MathOverflow);
            }
            self.total_borrows = principal + interest as u64;
        } else {
            assert(simple_interest(0, self.fixed_borrow_rate as int, elapsed as int) == 0)
                by (nonlinear_arith);
        }
        self.last_accrual_timestamp = now;
        Ok(())
    }
}

/// Interest only ever adds to the debt: accrual that succeeds leaves the
/// pool's debt at least as large as it was, moves the accrual time to `now`
/// when time has passed, and touches nothing else.
pub proof fn lemma_accrual_never_lowers_debt(market: Market, now: i64)
    requires
        market.accrued(now) is Ok,
    ensures
        ({
            let after = market.accrued(now)->Ok_0;
            &&& after.total_borrows >= market.total_borrows
            &&& after.total_borrows == market.total_borrows + simple_interest(
                market.total_borrows as int,
                market.fixed_borrow_rate as int,
                if now > market.last_accrual_timestamp {
                    now - market.last_accrual_timestamp
                } else {
                    0
                },
            )
            &&& after == Market {
                total_borrows: after.total_borrows,
                last_accrual_timestamp: after.last_accrual_timestamp,
                ..market
            }
            &&& after.last_accrual_timestamp == if now > market.last_accrual_timestamp {
                now
            } else {
                market.last_accrual_timestamp
            }
        }),
{
    let elapsed = now - market.last_accrual_timestamp;
    let principal = market.total_borrows as int;
    let rate = market.fixed_borrow_rate as int;
    if elapsed > 0 {
        assert(interest_factor(rate, elapsed) >= 0) by (nonlinear_arith)
            requires
                rate >= 0,
                elapsed > 0,
        ;
        assert(simple_interest(principal, rate, elapsed) >= 0) by (nonlinear_arith)
            requires
                principal >= 0,
                interest_factor(rate, elapsed) >= 0,
                simple_interest(principal, rate, elapsed) == principal * interest_factor(
                    rate,
                    elapsed,
                ),
        ;
    } else {
        assert(rate * 0 == 0);
        assert(interest_factor(rate, 0) == 0);
        assert(principal * 0 == 0);
    }
}

/// More time never means less interest: for the same principal and rate,
/// the interest over a longer time is at least that over a shorter one.
pub proof fn lemma_interest_grows_with_time(principal: int, rate_bps: int, earlier: int, later: int)
    requires
        0 <= principal,
        0 <= rate_bps,
        0 <= earlier <= later,
    ensures
        0 <= simple_interest(principal, rate_bps, earlier) <= simple_interest(
            principal,
            rate_bps,
            later,
        ),
{
    let short = rate_bps * earlier;
    let long = rate_bps * later;
    assert(0 <= short <= long) by (nonlinear_arith)
        requires
            0 <= rate_bps,
            0 <= earlier <= later,
            short == rate_bps * earlier,
            long == rate_bps * later,
    ;
    let fewer = short / (RATE_DENOMINATOR as int);
    let more = long / (RATE_DENOMINATOR as int);
    assert(0 <= fewer <= more);
    assert(0 <= principal * fewer <= principal * more) by (nonlinear_arith)
        requires
            0 <= principal,
            0 <= fewer <= more,
    ;
}

} // verus!
