use soroban_sdk::Address;
use vstd::prelude::*;

verus! {

/// A key of a pool contract's storage that the fixture reads.
pub enum PoolStorageKey {
    /// The pool's configuration (instance storage, symbol `Config`).
    Config,
    /// The pool's emission shares per reserve (persistent storage, symbol `PoolEmis`).
    PoolEmissions,
    /// A reserve's configuration, by the reserve's token address.
    ResConfig(Address),
    /// A reserve's data, by the reserve's token address.
    ResData(Address),
    /// An emission stream's configuration, by the stream's index.
    EmisConfig(u32),
    /// An emission stream's data, by the stream's index.
    EmisData(u32),
}

/// A storage read to make against one pool contract.
pub struct PoolRead {
    /// The pool contract whose storage is read.
    pub pool: Address,
    /// The key that is read.
    pub key: PoolStorageKey,
}

/// Index of an emission stream: each reserve has two, the stream of token
/// type 0 at twice the reserve's index and that of token type 1 right after it.
pub open spec fn emission_index(reserve_index: u32, token_type: u32) -> int {
    reserve_index * 2 + token_type
}

/// Streams of types 0 and 1 never share an index: the index names the reserve
/// and the type.
pub proof fn lemma_emission_index_injective(r1: u32, t1: u32, r2: u32, t2: u32)
    requires
        t1 < 2,
        t2 < 2,
    ensures
        emission_index(r1, t1) == emission_index(r2, t2) <==> (r1 == r2 && t1 == t2),
{
}

/// The stream of type `t < 2` of a reserve lies below those of every later
/// reserve.
pub proof fn lemma_emission_index_ordered(r1: u32, t1: u32, r2: u32, t2: u32)
    requires
        t1 < 2,
        t2 < 2,
        r1 < r2,
    ensures
        emission_index(r1, t1) < emission_index(r2, t2),
{
}

} // verus!
