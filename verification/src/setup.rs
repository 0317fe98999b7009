use crate::host::address_clone;
use soroban_sdk::Address;
use vstd::prelude::*;

verus! {

/// One unit of a 7-decimal token.
pub const SCALAR_7: i128 = 1_000_0000;

/// One unit of a 9-decimal token.
pub const SCALAR_9: i128 = 1_000_000_000;

/// Backstop tokens that the admin holds when the backstop starts.
pub const ADMIN_BACKSTOP_DEPOSIT: i128 = 10_000_000 * SCALAR_7;

/// Backstop tokens that the first user holds when the backstop starts.
pub const USER_BACKSTOP_DEPOSIT: i128 = 40_000_000 * SCALAR_7;

/// Decimals of the prices that the mock oracle reports.
pub const ORACLE_DECIMALS: u32 = 7;

/// Seconds between the mock oracle's price updates.
pub const ORACLE_RESOLUTION: u32 = 300;

/// Oracle price of the mock OUSD token: one dollar.
pub const MOCK_OUSD_PRICE: i128 = 1_0000000;

/// Oracle price of XLM: ten cents.
pub const XLM_PRICE: i128 = 0_1000000;

/// The backstop's starting balances: the admin's, then the first user's.
pub fn backstop_deposits(admin: &Address, user: &Address) -> (deposits: Vec<(Address, i128)>)
    ensures
        deposits@ == seq![(*admin, ADMIN_BACKSTOP_DEPOSIT), (*user, USER_BACKSTOP_DEPOSIT)],
{
    let mut deposits: Vec<(Address, i128)> = Vec::new();
    deposits.push((address_clone(admin), ADMIN_BACKSTOP_DEPOSIT));
    deposits.push((address_clone(user), USER_BACKSTOP_DEPOSIT));
    deposits
}

/// The assets that the mock oracle prices, in the order of `oracle_prices`:
/// the mock OUSD token, then XLM.
pub fn oracle_assets(mock_ousd: &Address, xlm: &Address) -> (assets: Vec<Address>)
    ensures
        assets@ == seq![*mock_ousd, *xlm],
{
    let mut assets: Vec<Address> = Vec::new();
    assets.push(address_clone(mock_ousd));
    assets.push(address_clone(xlm));
    assets
}

/// The mock oracle's stable prices, in the order of `oracle_assets`.
pub fn oracle_prices() -> (prices: Vec<i128>)
    ensures
        prices@ == seq![MOCK_OUSD_PRICE, XLM_PRICE],
{
    let mut prices: Vec<i128> = Vec::new();
    prices.push(MOCK_OUSD_PRICE);
    prices.push(XLM_PRICE);
    prices
}

} // verus!
