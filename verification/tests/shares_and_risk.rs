use lending_pool::math::mul_div;
use lending_pool::risk::{check_ltv, BPS_SCALE};
use lending_pool::shares::{amount_for_shares, shares_for_deposit, shares_to_burn};
use lending_pool::ErrorCode;

#[test]
fn mul_div_rounds_down() {
    assert_eq!(mul_div(50, 100, 200), Ok(25));
    assert_eq!(mul_div(7, 3, 2), Ok(10));
    assert_eq!(mul_div(1, 1, 2), Ok(0));
    assert_eq!(mul_div(0, 9, 4), Ok(0));
}

#[test]
fn mul_div_multiplies_in_double_width() {
    // The product overflows 64 bits; the quotient fits.
    assert_eq!(mul_div(u64::MAX, u64::MAX, u64::MAX), Ok(u64::MAX));
    assert_eq!(mul_div(1 << 63, 4, 8), Ok(1 << 62));
    assert_eq!(mul_div(u64::MAX, 1_000, 2_000), Ok(u64::MAX / 2));
}

#[test]
fn mul_div_rejects_a_zero_divisor_and_a_wide_quotient() {
    assert_eq!(mul_div(5, 5, 0), Err(ErrorCode::MathOverflow));
    assert_eq!(mul_div(0, 0, 0), Err(ErrorCode::MathOverflow));
    assert_eq!(mul_div(u64::MAX, 2, 1), Err(ErrorCode::MathOverflow));
    assert_eq!(mul_div(1 << 63, 2, 1), Err(ErrorCode::MathOverflow));
    assert_eq!(mul_div(u64::MAX, 1, 1), Ok(u64::MAX));
}

#[test]
fn first_entrant_gets_one_share_per_unit() {
    assert_eq!(shares_for_deposit(100, 0, 0), Ok(100));
    assert_eq!(shares_for_deposit(u64::MAX, 0, 0), Ok(u64::MAX));
    // Value without shares still prices the first share at par.
    assert_eq!(shares_for_deposit(100, 5, 0), Ok(100));
}

#[test]
fn later_entrants_get_shares_in_proportion() {
    assert_eq!(shares_for_deposit(50, 200, 100), Ok(25));
    assert_eq!(shares_for_deposit(1, 200, 100), Ok(0));
    assert_eq!(shares_for_deposit(3, 200, 100), Ok(1));
    assert_eq!(shares_for_deposit(50, 100, 200), Ok(100));
}

#[test]
fn shares_without_value_cannot_be_priced() {
    assert_eq!(shares_for_deposit(50, 0, 100), Err(ErrorCode::MathOverflow));
}

#[test]
fn minted_shares_that_do_not_fit_are_an_overflow() {
    assert_eq!(shares_for_deposit(u64::MAX, 1, 2), Err(ErrorCode::MathOverflow));
}

#[test]
fn shares_are_worth_their_part_of_the_pool() {
    assert_eq!(amount_for_shares(25, 250, 125), Ok(50));
    assert_eq!(amount_for_shares(1, 3, 2), Ok(1));
    assert_eq!(amount_for_shares(2, 3, 2), Ok(3));
    assert_eq!(amount_for_shares(10, 0, 0), Ok(0));
    assert_eq!(amount_for_shares(10, 500, 0), Ok(0));
    assert_eq!(amount_for_shares(0, 500, 10), Ok(0));
    assert_eq!(amount_for_shares(u64::MAX, 2, 1), Err(ErrorCode::MathOverflow));
}

#[test]
fn burned_shares_are_in_proportion_to_what_leaves() {
    assert_eq!(shares_to_burn(50, 10, 50), Ok(10));
    assert_eq!(shares_to_burn(25, 10, 50), Ok(5));
    assert_eq!(shares_to_burn(1, 10, 50), Ok(0));
    assert_eq!(shares_to_burn(0, 10, 50), Ok(0));
    assert_eq!(shares_to_burn(7, 10, 0), Ok(0));
}

#[test]
fn ltv_gate_allows_the_boundary_and_rejects_one_more() {
    assert_eq!(BPS_SCALE, 10_000);
    assert_eq!(check_ltv(1000, 700, 7000), Ok(()));
    assert_eq!(check_ltv(1000, 701, 7000), Err(ErrorCode::ExceedsMaximumLtv));
    assert_eq!(check_ltv(1000, 699, 7000), Ok(()));
    assert_eq!(check_ltv(0, 0, 7000), Ok(()));
    assert_eq!(check_ltv(0, 1, 7000), Err(ErrorCode::ExceedsMaximumLtv));
    assert_eq!(check_ltv(1000, 0, 0), Ok(()));
}

#[test]
fn ltv_gate_does_not_overflow_on_large_values() {
    // Both products exceed 64 bits.
    assert_eq!(check_ltv(u64::MAX, u64::MAX, 10_000), Ok(()));
    assert_eq!(check_ltv(u64::MAX, u64::MAX, 9_999), Err(ErrorCode::ExceedsMaximumLtv));
    assert_eq!(check_ltv(u64::MAX, 1, u64::MAX), Ok(()));
    assert_eq!(check_ltv(1, u64::MAX, u64::MAX), Err(ErrorCode::ExceedsMaximumLtv));
}

#[test]
fn every_error_has_its_message() {
    assert_eq!(ErrorCode::ExceedsMaximumLtv.message(), "Operation exceeds maximum LTV");
    assert_eq!(ErrorCode::ProtocolPaused.message(), "Protocol is paused");
    assert_eq!(ErrorCode::InsufficientLiquidity.message(), "Insufficient liquidity");
    assert_eq!(ErrorCode::PositionBeingUnstaked.message(), "Position is being unstaked");
    assert_eq!(ErrorCode::NotBeingUnstaked.message(), "Position is not being unstaked");
    assert_eq!(ErrorCode::UnstakingNotComplete.message(), "Unstaking period not complete");
    assert_eq!(ErrorCode::InvalidAmount.message(), "Invalid amount");
    assert_eq!(ErrorCode::MathOverflow.message(), "Math overflow");
    assert_eq!(ErrorCode::Unauthorized.message(), "Unauthorized");
    assert_eq!(ErrorCode::InvalidOracleData.message(), "Invalid Oracle Data!");
    assert_eq!(
        ErrorCode::TransferFailed(lending_pool::TransferError { code: 1 }).message(),
        "Asset transfer failed"
    );
}

#[test]
fn minted_shares_are_worth_no_more_than_what_was_paid() {
    let pools: [(u64, u64); 5] = [(200, 100), (100, 200), (7, 3), (1_000_003, 999_983), (5, 5)];
    let amounts: [u64; 6] = [1, 2, 3, 50, 999, 123_456_789];
    for (total_amount, total_shares) in pools {
        for amount in amounts {
            let minted = shares_for_deposit(amount, total_amount, total_shares).unwrap();
            assert!(minted as u128 * total_amount as u128 <= amount as u128 * total_shares as u128);
            let worth =
                amount_for_shares(minted, total_amount + amount, total_shares + minted).unwrap();
            assert!(worth <= amount);
        }
    }
    // 50 into a pool of 7 against 3 shares: floor(150 / 7) = 21 shares,
    // worth floor(21 * 57 / 24) = 49 afterwards.
    assert_eq!(shares_for_deposit(50, 7, 3), Ok(21));
    assert_eq!(amount_for_shares(21, 57, 24), Ok(49));
}

#[test]
fn a_part_of_the_shares_owns_no_more_than_the_pool() {
    for shares in 0..=10u64 {
        let worth = amount_for_shares(shares, 37, 10).unwrap();
        assert!(worth <= 37);
        assert_eq!(worth, shares * 37 / 10);
    }
    assert_eq!(amount_for_shares(10, 37, 10), Ok(37));
}
