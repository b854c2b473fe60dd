use lending_pool::instructions::{Borrow, Deposit, Repay, Withdraw};
use lending_pool::shares::amount_for_shares;
use lending_pool::{AccountKey, Market, TransferError, UserPosition};

fn key(n: u8) -> AccountKey {
    AccountKey { bytes: [n; 32] }
}

fn new_market() -> Market {
    Market {
        authority: key(1),
        deposit_vault: key(2),
        borrow_vault: key(3),
        total_deposits: 0,
        total_borrows: 0,
        total_deposit_shares: 0,
        total_borrow_shares: 0,
        fixed_borrow_rate: 10_000,
        max_ltv: 7000,
        last_accrual_timestamp: 0,
        bump: 0,
    }
}

fn new_position(n: u8) -> UserPosition {
    UserPosition {
        owner: key(n),
        deposited_jito: 0,
        deposited_shares: 0,
        borrowed_sol: 0,
        borrowed_shares: 0,
        last_update_timestamp: 0,
        bump: 0,
    }
}

fn deposit_claims(market: &Market, users: &[UserPosition]) -> u64 {
    users
        .iter()
        .map(|u| {
            let worth = amount_for_shares(
                u.deposited_shares,
                market.total_deposits,
                market.total_deposit_shares,
            );
            worth.unwrap()
        })
        .sum()
}

fn debt_claims(market: &Market, users: &[UserPosition]) -> u64 {
    users
        .iter()
        .map(|u| {
            amount_for_shares(u.borrowed_shares, market.total_borrows, market.total_borrow_shares)
                .unwrap()
        })
        .sum()
}

fn check(market: &Market, users: &[UserPosition]) {
    let shares: u64 = users.iter().map(|u| u.deposited_shares).sum();
    let recorded: u64 = users.iter().map(|u| u.deposited_jito).sum();
    let debt_shares: u64 = users.iter().map(|u| u.borrowed_shares).sum();
    assert_eq!(shares, market.total_deposit_shares);
    assert_eq!(recorded, market.total_deposits);
    assert_eq!(debt_shares, market.total_borrow_shares);
    assert_eq!(deposit_claims(market, users), market.total_deposits);
    assert!(debt_claims(market, users) <= market.total_borrows);
}

#[test]
fn deposits_and_withdrawals_conserve_collateral() {
    let mut market = new_market();
    let mut users = [new_position(10), new_position(11), new_position(12)];
    // (user, amount, deposit?, transfer succeeds?)
    let script: [(usize, u64, bool, bool); 12] = [
        (0, 100, true, true),
        (1, 37, true, true),
        (2, 1, true, true),
        (0, 30, false, true),
        (1, 40, false, true),
        (1, 37, false, false),
        (2, 5, true, false),
        (1, 37, false, true),
        (0, 0, true, true),
        (2, 999, true, true),
        (0, 70, false, true),
        (2, 1000, false, true),
    ];
    let mut now = 0;
    for (user, amount, is_deposit, transfer_ok) in script {
        now += 1_000_000;
        let transfer = if transfer_ok { Ok(()) } else { Err(TransferError { code: 1 }) };
        if is_deposit {
            let mut op = Deposit { market, user_position: users[user] };
            let _ = op.deposit(amount, now, transfer);
            market = op.market;
            users[user] = op.user_position;
        } else {
            let mut op = Withdraw { market, user_position: users[user] };
            let _ = op.withdraw(amount, now, transfer);
            market = op.market;
            users[user] = op.user_position;
        }
        check(&market, &users);
    }
    assert_eq!(market.total_deposits, 0);
    assert_eq!(market.total_deposit_shares, 0);
}

#[test]
fn all_four_operations_with_interest_keep_the_accounts() {
    let mut market = new_market();
    let mut users = [new_position(10), new_position(11)];
    let year = 31_536_000;

    let mut op = Deposit { market, user_position: users[0] };
    op.deposit(1_000, 1, Ok(())).unwrap();
    market = op.market;
    users[0] = op.user_position;
    check(&market, &users);

    let mut op = Deposit { market, user_position: users[1] };
    op.deposit(3_000, 2, Ok(())).unwrap();
    market = op.market;
    users[1] = op.user_position;
    check(&market, &users);

    let mut op = Borrow { market, user_position: users[0], borrow_vault_balance: 5_000 };
    op.borrow(300, 3, Ok(())).unwrap();
    market = op.market;
    users[0] = op.user_position;
    check(&market, &users);

    // A year on, the debt has doubled; the second loan gets half a share
    // per unit.
    let mut op = Borrow { market, user_position: users[1], borrow_vault_balance: 5_000 };
    let event = op.borrow(101, 3 + year, Ok(())).unwrap();
    assert_eq!(event.shares, 50);
    market = op.market;
    users[1] = op.user_position;
    assert_eq!(market.total_borrows, 701);
    assert_eq!(market.total_borrow_shares, 350);
    check(&market, &users);
    // Rounding left value in the pool: the claims come to less than the debt.
    assert_eq!(debt_claims(&market, &users), 600 + 100);

    let mut op = Repay { market, user_position: users[1] };
    let event = op.repay(1_000, 4 + year, Ok(())).unwrap();
    assert_eq!(event.amount, 100);
    assert_eq!(event.shares, 50);
    market = op.market;
    users[1] = op.user_position;
    check(&market, &users);

    // One unit of recorded debt is left on the position, so some collateral
    // has to stay behind it.
    assert_eq!(users[1].borrowed_sol, 1);
    let mut op = Withdraw { market, user_position: users[1] };
    assert!(op.withdraw(3_000, 5 + year, Ok(())).is_err());
    op.withdraw(2_000, 5 + year, Ok(())).unwrap();
    market = op.market;
    users[1] = op.user_position;
    check(&market, &users);
    assert_eq!(market.total_deposits, 2_000);
}

#[test]
fn a_pool_has_value_exactly_when_it_has_shares() {
    let mut market = new_market();
    let mut users = [new_position(10), new_position(11)];
    let year = 31_536_000;
    let consistent = |m: &Market| {
        (m.total_deposits == 0) == (m.total_deposit_shares == 0)
            && (m.total_borrows == 0) == (m.total_borrow_shares == 0)
    };
    assert!(consistent(&market));

    for (user, amount) in [(0usize, 500u64), (1, 500)] {
        let mut op = Deposit { market, user_position: users[user] };
        op.deposit(amount, 0, Ok(())).unwrap();
        market = op.market;
        users[user] = op.user_position;
        assert!(consistent(&market));
    }
    for (user, amount, now) in [(0usize, 7u64, 0i64), (1, 5, year), (0, 3, 2 * year)] {
        let mut op = Borrow { market, user_position: users[user], borrow_vault_balance: 100 };
        op.borrow(amount, now, Ok(())).unwrap();
        market = op.market;
        users[user] = op.user_position;
        assert!(consistent(&market));
    }
    // Repay in small steps until nothing is owed; a repayment that would
    // take more than the position records as drawn is refused and changes
    // nothing.
    for round in 0..40 {
        for user in 0..2usize {
            let mut op = Repay { market, user_position: users[user] };
            let _ = op.repay(1 + round % 3, 2 * year, Ok(()));
            market = op.market;
            users[user] = op.user_position;
            assert!(consistent(&market));
            check(&market, &users);
        }
    }
}
