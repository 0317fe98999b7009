use test_suites::setup::{
    backstop_deposits, oracle_assets, oracle_prices, ADMIN_BACKSTOP_DEPOSIT, MOCK_OUSD_PRICE,
    ORACLE_DECIMALS, ORACLE_RESOLUTION, SCALAR_7, SCALAR_9, USER_BACKSTOP_DEPOSIT, XLM_PRICE,
};
use soroban_sdk::testutils::Address as _;
use soroban_sdk::{Address, Env};

#[test]
fn scalars() {
    assert_eq!(SCALAR_7, 10_000_000);
    assert_eq!(SCALAR_9, 1_000_000_000);
}

#[test]
fn backstop_starts_with_admin_then_user() {
    let env = Env::default();
    let admin = Address::generate(&env);
    let frodo = Address::generate(&env);
    let deposits = backstop_deposits(&admin, &frodo);
    assert_eq!(deposits.len(), 2);
    assert_eq!(deposits[0].0, admin);
    assert_eq!(deposits[0].1, 100_000_000_000_000);
    assert_eq!(deposits[1].0, frodo);
    assert_eq!(deposits[1].1, 400_000_000_000_000);
    assert_eq!(ADMIN_BACKSTOP_DEPOSIT, 10_000_000 * SCALAR_7);
    assert_eq!(USER_BACKSTOP_DEPOSIT, 40_000_000 * SCALAR_7);
}

#[test]
fn oracle_prices_line_up_with_assets() {
    let env = Env::default();
    let ousd = Address::generate(&env);
    let xlm = Address::generate(&env);
    let assets = oracle_assets(&ousd, &xlm);
    let prices = oracle_prices();
    assert_eq!(assets, vec![ousd, xlm]);
    assert_eq!(prices, vec![10_000_000, 1_000_000]);
    assert_eq!(MOCK_OUSD_PRICE, 10_000_000);
    assert_eq!(XLM_PRICE, 1_000_000);
    assert_eq!(ORACLE_DECIMALS, 7);
    assert_eq!(ORACLE_RESOLUTION, 300);
}
