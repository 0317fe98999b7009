//! Verified bookkeeping for a Soroban test fixture: token slots, ledger time
//! travel, pool and pair registries, and the storage keys that pool reads use.

pub mod fixture;
pub mod host;
pub mod ledger;
pub mod setup;
pub mod token;
pub mod storage;
