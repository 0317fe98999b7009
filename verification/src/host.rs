use crate::ledger::LedgerSettings;
use soroban_sdk::testutils::Ledger as _;
use soroban_sdk::testutils::LedgerInfo;
use soroban_sdk::{Address, Env};
use vstd::prelude::*;

verus! {

/// The Soroban environment that hosts the fixture's contracts.
#[verifier::external_type_specification]
#[verifier::external_body]
pub struct ExEnv(Env);

/// The address of an account or contract in a Soroban environment.
#[verifier::external_type_specification]
#[verifier::external_body]
pub struct ExAddress(Address);

/// A string held by a Soroban environment.
#[verifier::external_type_specification]
#[verifier::external_body]
pub struct ExSorobanString(soroban_sdk::String);

/// Calls `soroban_sdk::Ledger::timestamp` on `env.ledger()`: the close time of
/// the environment's current ledger. It depends on the environment's state,
/// which the library does not model, so nothing is stated of it.
#[verifier::external_body]
pub(crate) fn ledger_timestamp(env: &Env) -> u64 {
    env.ledger().timestamp()
}

/// Calls `soroban_sdk::Ledger::sequence` on `env.ledger()`: the number of the
/// environment's current ledger. It depends on the environment's state, which
/// the library does not model, so nothing is stated of it.
#[verifier::external_body]
pub(crate) fn ledger_sequence(env: &Env) -> u32 {
    env.ledger().sequence()
}

/// Calls `soroban_sdk::testutils::Ledger::set` on `env.ledger()` with a
/// `LedgerInfo` holding the fields of `settings` one for one, and returns the
/// settings so handed over. What the environment holds afterwards is its own
/// state, which the library does not model, so nothing more is stated.
#[verifier::external_body]
pub(crate) fn set_ledger(env: &Env, settings: LedgerSettings) -> (applied: LedgerSettings)
    ensures
        applied == settings,
{
    env.ledger().set(LedgerInfo {
        protocol_version: settings.protocol_version,
        sequence_number: settings.sequence_number,
        timestamp: settings.timestamp,
        network_id: settings.network_id,
        base_reserve: settings.base_reserve,
        min_temp_entry_ttl: settings.min_temp_entry_ttl,
        min_persistent_entry_ttl: settings.min_persistent_entry_ttl,
        max_entry_ttl: settings.max_entry_ttl,
    });
    settings
}

/// Calls `<Address as Clone>::clone`: the clone names the same account or
/// contract in the same environment, so it is taken to be equal to `address`.
#[verifier::external_body]
pub(crate) fn address_clone(address: &Address) -> (copy: Address)
    ensures
        copy == *address,
{
    address.clone()
}

} // verus!
