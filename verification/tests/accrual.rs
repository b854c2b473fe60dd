use lending_pool::accrual::RATE_DENOMINATOR;
use lending_pool::{AccountKey, ErrorCode, Market};

fn market(total_borrows: u64, rate: u64, last: i64) -> Market {
    let key = AccountKey { bytes: [7; 32] };
    Market {
        authority: key,
        deposit_vault: key,
        borrow_vault: key,
        total_deposits: 0,
        total_borrows,
        total_deposit_shares: 0,
        total_borrow_shares: 0,
        fixed_borrow_rate: rate,
        max_ltv: 7000,
        last_accrual_timestamp: last,
        bump: 255,
    }
}

#[test]
fn rate_denominator_is_bps_times_seconds_per_year() {
    assert_eq!(RATE_DENOMINATOR, 10_000 * 365 * 86_400);
}

#[test]
fn one_day_at_five_percent_accrues_nothing() {
    let mut m = market(1_000_000, 500, 0);
    assert_eq!(m.accrue_interest(86_400), Ok(()));
    let factor = 500u128 * 86_400 / (10_000 * 365 * 86_400);
    assert_eq!(factor, 0);
    assert_eq!(m.total_borrows as u128, 1_000_000 + 1_000_000 * factor);
    assert_eq!(m.total_borrows, 1_000_000);
    assert_eq!(m.last_accrual_timestamp, 86_400);
}

#[test]
fn one_year_at_hundred_percent_doubles_the_debt() {
    let mut m = market(1_000_000, 10_000, 100);
    assert_eq!(m.accrue_interest(100 + 31_536_000), Ok(()));
    assert_eq!(m.total_borrows, 2_000_000);
    assert_eq!(m.last_accrual_timestamp, 100 + 31_536_000);
}

#[test]
fn the_interest_factor_is_rounded_down() {
    // One second short of two years at 100 %: the factor is 1, not 2.
    let mut m = market(1_000, 10_000, 0);
    assert_eq!(m.accrue_interest(2 * 31_536_000 - 1), Ok(()));
    assert_eq!(m.total_borrows, 2_000);
    // One second short of one year: the factor is 0.
    let mut m = market(1_000, 10_000, 0);
    assert_eq!(m.accrue_interest(31_536_000 - 1), Ok(()));
    assert_eq!(m.total_borrows, 1_000);
    assert_eq!(m.last_accrual_timestamp, 31_536_000 - 1);
}

#[test]
fn twenty_years_at_five_percent_is_one_whole_factor() {
    let mut m = market(300, 500, 0);
    assert_eq!(m.accrue_interest(20 * 31_536_000), Ok(()));
    assert_eq!(m.total_borrows, 600);
}

#[test]
fn accrual_with_no_debt_only_moves_the_clock() {
    let mut m = market(0, 10_000, 5);
    let before = m;
    assert_eq!(m.accrue_interest(5 + 10 * 31_536_000), Ok(()));
    assert_eq!(m.total_borrows, 0);
    assert_eq!(m.last_accrual_timestamp, 5 + 10 * 31_536_000);
    assert_eq!(m.total_deposits, before.total_deposits);
    assert_eq!(m.fixed_borrow_rate, before.fixed_borrow_rate);
}

#[test]
fn accrual_at_the_same_time_changes_nothing() {
    let mut m = market(1_000, 10_000, 50);
    let before = m;
    assert_eq!(m.accrue_interest(50), Ok(()));
    assert_eq!(m, before);
}

#[test]
fn accrual_with_a_clock_that_went_back_changes_nothing() {
    let mut m = market(1_000, 10_000, 50);
    let before = m;
    assert_eq!(m.accrue_interest(49), Ok(()));
    assert_eq!(m, before);
    assert_eq!(m.accrue_interest(-1_000_000), Ok(()));
    assert_eq!(m, before);
}

#[test]
fn elapsed_time_that_does_not_fit_is_an_overflow() {
    let mut m = market(1_000, 10_000, -1);
    let before = m;
    assert_eq!(m.accrue_interest(i64::MAX), Err(ErrorCode::MathOverflow));
    assert_eq!(m, before);
    let mut m = market(1_000, 10_000, 1);
    assert_eq!(m.accrue_interest(i64::MIN), Err(ErrorCode::MathOverflow));
    let mut m = market(1_000, 10_000, i64::MAX);
    assert_eq!(m.accrue_interest(i64::MIN), Err(ErrorCode::MathOverflow));
}

#[test]
fn interest_that_does_not_fit_is_an_overflow() {
    let mut m = market(u64::MAX, 10_000, 0);
    let before = m;
    assert_eq!(m.accrue_interest(31_536_000), Err(ErrorCode::MathOverflow));
    assert_eq!(m, before);
    // The debt just fits: half the range doubles to one below the top.
    let mut m = market(u64::MAX / 2, 10_000, 0);
    assert_eq!(m.accrue_interest(31_536_000), Ok(()));
    assert_eq!(m.total_borrows, u64::MAX - 1);
    // One more unit of debt and it does not.
    let mut m = market(u64::MAX / 2 + 1, 10_000, 0);
    assert_eq!(m.accrue_interest(31_536_000), Err(ErrorCode::MathOverflow));
}

#[test]
fn interest_wider_than_sixty_four_bits_is_an_overflow_not_a_wrap() {
    // With the largest rate and time the factor alone is wider than 64
    // bits. The interest must be refused, not cut down to its low bits.
    let mut m = market(2, u64::MAX, 0);
    let before = m;
    assert_eq!(m.accrue_interest(i64::MAX), Err(ErrorCode::MathOverflow));
    assert_eq!(m, before);
}

#[test]
fn interest_never_lowers_the_debt() {
    let times = [0i64, 1, 31_536_000, 3 * 31_536_000 + 17, 40 * 31_536_000];
    let mut last_total = 0u64;
    for t in times {
        let mut m = market(1_234, 2_500, 0);
        assert_eq!(m.accrue_interest(t), Ok(()));
        assert!(m.total_borrows >= 1_234);
        assert!(m.total_borrows >= last_total);
        last_total = m.total_borrows;
    }
    // 40 years at 25 %: ten whole factors.
    assert_eq!(last_total, 1_234 + 1_234 * 10);
}
