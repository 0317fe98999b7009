use crate::host::{address_clone, ledger_sequence, ledger_timestamp, set_ledger};
use crate::ledger::{
    genesis_ledger, jumped_ledger, jumped_ledger_with_sequence, LedgerSettings, GENESIS_SEQUENCE,
    GENESIS_TIMESTAMP, ONE_WEEK,
};
use crate::storage::{emission_index, PoolRead, PoolStorageKey};
use crate::token::TokenIndex;
use soroban_sdk::{Address, Env};
use std::collections::HashMap;
use vstd::prelude::*;

verus! {

broadcast use vstd::std_specs::hash::group_hash_axioms;

/// A deployed pool: its contract, the treasury that backs it, and the index
/// that the pool gave each reserve it holds, keyed by the reserve's
/// `TokenIndex` position.
pub struct PoolFixture {
    pub treasury: Address,
    pub pool: Address,
    pub reserves: HashMap<usize, u32>,
}

/// A deployed liquidity pair.
pub struct PairFixture {
    pub pair: Address,
}

/// The arguments of a pool factory deployment: the pool's admin, name,
/// oracle, backstop take rate and maximum number of positions.
pub struct PoolDeployRequest {
    pub admin: Address,
    pub name: soroban_sdk::String,
    pub oracle: Address,
    pub backstop_take_rate: u32,
    pub max_positions: u32,
}

/// The accounts and contracts that a fixture is set up with: the admin, the
/// first user, the five test tokens (BLND, USDC, wETH, XLM and the STABLE
/// token, here the mock OUSD token) and the protocol's contracts.
pub struct Deployment {
    pub admin: Address,
    pub frodo: Address,
    pub blnd: Address,
    pub usdc: Address,
    pub weth: Address,
    pub xlm: Address,
    pub mock_ousd: Address,
    pub emitter: Address,
    pub backstop: Address,
    pub pool_factory: Address,
    pub oracle: Address,
    pub lp: Address,
    pub pair_factory: Address,
    pub router: Address,
    pub bridge_oracle: Address,
    pub mock_treasury: Address,
    pub mock_pegkeeper: Address,
}

/// The protocol's test environment: its accounts, its contracts, the test
/// tokens in `TokenIndex` order, and the pools and pairs created so far.
pub struct TestFixture {
    pub env: Env,
    pub admin: Address,
    pub users: Vec<Address>,
    pub emitter: Address,
    pub backstop: Address,
    pub pool_factory: Address,
    pub oracle: Address,
    pub lp: Address,
    pub pools: Vec<PoolFixture>,
    pub tokens: Vec<Address>,
    pub pair_factory: Address,
    pub pairs: Vec<PairFixture>,
    pub router: Address,
    pub bridge_oracle: Address,
    pub mock_treasury: Address,
    pub mock_pegkeeper: Address,
}

impl Deployment {
    /// The two tokens of the fixture's liquidity pool: BLND and USDC.
    pub fn lp_tokens(&self) -> (tokens: (Address, Address))
        ensures
            tokens.0 == self.blnd,
            tokens.1 == self.usdc,
    {
        (address_clone(&self.blnd), address_clone(&self.usdc))
    }
}

impl PoolFixture {
    /// The index that the pool gave the reserve of `asset`, if it holds one.
    pub open spec fn spec_reserve_index(self, asset: TokenIndex) -> Option<u32> {
        self.reserves@.get(asset.position())
    }

    /// The index that the pool gave the reserve of `asset`, if it holds one.
    pub fn reserve_index(&self, asset: TokenIndex) -> (index: Option<u32>)
        ensures
            index == self.spec_reserve_index(asset),
    {
        match self.reserves.get(&asset.position()) {
            Some(index) => Some(*index),
            None => None,
        }
    }
}

impl TestFixture {
    /// `after` has the accounts, contracts, tokens and environment of
    /// `before`: all but its pools and pairs.
    pub open spec fn same_setup(before: TestFixture, after: TestFixture) -> bool {
        &&& after.env == before.env
        &&& after.admin == before.admin
        &&& after.users == before.users
        &&& after.emitter == before.emitter
        &&& after.backstop == before.backstop
        &&& after.pool_factory == before.pool_factory
        &&& after.oracle == before.oracle
        &&& after.lp == before.lp
        &&& after.tokens == before.tokens
        &&& after.pair_factory == before.pair_factory
        &&& after.router == before.router
        &&& after.bridge_oracle == before.bridge_oracle
        &&& after.mock_treasury == before.mock_treasury
        &&& after.mock_pegkeeper == before.mock_pegkeeper
    }

    /// `after` is `before` with the reserve of `asset` in pool `pool_index`
    /// recorded at `reserve_index`, and nothing else changed.
    pub open spec fn reserve_recorded(
        before: TestFixture,
        after: TestFixture,
        pool_index: int,
        asset: TokenIndex,
        reserve_index: u32,
    ) -> bool {
        &&& Self::same_setup(before, after)
        &&& after.pairs@ == before.pairs@
        &&& after.pools@.len() == before.pools@.len()
        &&& forall|i: int|
            0 <= i < before.pools@.len() && i != pool_index ==> #[trigger] after.pools@[i]
                == before.pools@[i]
        &&& after.pools@[pool_index].pool == before.pools@[pool_index].pool
        &&& after.pools@[pool_index].treasury == before.pools@[pool_index].treasury
        &&& after.pools@[pool_index].reserves@ == before.pools@[pool_index].reserves@.insert(
            asset.position(),
            reserve_index,
        )
    }

    /// Sets the environment's ledger to the first ledger of a fixture (the
    /// backstop epoch, ledger 150, protocol 20) and returns the settings
    /// applied.
    pub fn open_ledger(env: &Env) -> (applied: LedgerSettings)
        ensures
            applied == genesis_ledger(),
    {
        set_ledger(env, LedgerSettings::genesis())
    }

    /// Assembles the fixture from a deployment: the first user is `frodo`, the
    /// tokens are BLND (0), USDC (1), wETH (2), XLM (3) and the STABLE token
    /// (4), and there are no pools or pairs yet. The environment is set to the
    /// first ledger and then to the ledger one week later; `ledger` is the
    /// latter, as applied.
    pub fn create(env: Env, deployment: Deployment) -> (result: (TestFixture, LedgerSettings))
        ensures
            result.0.env == env,
            result.0.admin == deployment.admin,
            result.0.users@ == seq![deployment.frodo],
            result.0.tokens@ == seq![
                deployment.blnd,
                deployment.usdc,
                deployment.weth,
                deployment.xlm,
                deployment.mock_ousd,
            ],
            result.0.tokens@[TokenIndex::BLND.position() as int] == deployment.blnd,
            result.0.tokens@[TokenIndex::XLM.position() as int] == deployment.xlm,
            result.0.tokens@[TokenIndex::MockOusd.position() as int] == deployment.mock_ousd,
            result.0.pools@.len() == 0,
            result.0.pairs@.len() == 0,
            result.0.emitter == deployment.emitter,
            result.0.backstop == deployment.backstop,
            result.0.pool_factory == deployment.pool_factory,
            result.0.oracle == deployment.oracle,
            result.0.lp == deployment.lp,
            result.0.pair_factory == deployment.pair_factory,
            result.0.router == deployment.router,
            result.0.bridge_oracle == deployment.bridge_oracle,
            result.0.mock_treasury == deployment.mock_treasury,
            result.0.mock_pegkeeper == deployment.mock_pegkeeper,
            result.1 == jumped_ledger(GENESIS_TIMESTAMP, GENESIS_SEQUENCE, ONE_WEEK),
    {
        let Deployment {
            admin,
            frodo,
            blnd,
            usdc,
            weth,
            xlm,
            mock_ousd,
            emitter,
            backstop,
            pool_factory,
            oracle,
            lp,
            pair_factory,
            router,
            bridge_oracle,
            mock_treasury,
            mock_pegkeeper,
        } = deployment;
        let mut users: Vec<Address> = Vec::new();
        users.push(frodo);
        let mut tokens: Vec<Address> = Vec::new();
        tokens.push(blnd);
        tokens.push(usdc);
        tokens.push(weth);
        tokens.push(xlm);
        tokens.push(mock_ousd);
        let first = Self::open_ledger(&env);
        // The environment now holds `first`, so a week's jump from it is the
        // jump from its close time and number.
        let ledger = set_ledger(
            &env,
            LedgerSettings::after_jump(first.timestamp, first.sequence_number, ONE_WEEK),
        );
        let fixture = TestFixture {
            env,
            admin,
            users,
            emitter,
            backstop,
            pool_factory,
            pair_factory,
            router,
            oracle,
            bridge_oracle,
            lp,
            pools: Vec::new(),
            pairs: Vec::new(),
            tokens,
            mock_treasury,
            mock_pegkeeper,
        };
        (fixture, ledger)
    }

    /// The arguments with which the pool factory deploys a new pool: the
    /// fixture's admin as pool admin, the given name, the bridge oracle, and
    /// the given take rate and position limit.
    pub fn plan_pool(&self, name: soroban_sdk::String, backstop_take_rate: u32, max_positions: u32) -> (request: PoolDeployRequest)
        ensures
            request.admin == self.admin,
            request.name == name,
            request.oracle == self.bridge_oracle,
            request.backstop_take_rate == backstop_take_rate,
            request.max_positions == max_positions,
    {
        PoolDeployRequest {
            admin: address_clone(&self.admin),
            name,
            oracle: address_clone(&self.bridge_oracle),
            backstop_take_rate,
            max_positions,
        }
    }

    /// The pool and the token address with which a reserve of `asset_index`
    /// is queued and set on pool `pool_index`.
    pub fn reserve_target(&self, pool_index: usize, asset_index: TokenIndex) -> (target: (Address, Address))
        requires
            pool_index < self.pools@.len(),
            asset_index.position() < self.tokens@.len(),
        ensures
            target.0 == self.pools@[pool_index as int].pool,
            target.1 == self.tokens@[asset_index.position() as int],
    {
        (address_clone(&self.pools[pool_index].pool), address_clone(&self.tokens[asset_index]))
    }

    /// Records a pool that the pool factory deployed at `pool_id`, backed by
    /// the mock treasury and holding no reserves yet.
    pub fn create_pool(&mut self, pool_id: Address)
        ensures
            Self::same_setup(*old(self), *final(self)),
            final(self).pairs@ == old(self).pairs@,
            final(self).pools@.len() == old(self).pools@.len() + 1,
            forall|i: int|
                0 <= i < old(self).pools@.len() ==> #[trigger] final(self).pools@[i] == old(
                    self,
                ).pools@[i],
            final(self).pools@.last().pool == pool_id,
            final(self).pools@.last().treasury == old(self).mock_treasury,
            final(self).pools@.last().reserves@ == Map::<usize, u32>::empty(),
    {
        let treasury = address_clone(&self.mock_treasury);
        self.pools.push(PoolFixture { pool: pool_id, treasury, reserves: HashMap::new() });
    }

    /// The addresses of two test tokens, in the order given: the tokens that a
    /// new pair is created for.
    pub fn pair_tokens(&self, token_a: TokenIndex, token_b: TokenIndex) -> (ids: (Address, Address))
        requires
            token_a.position() < self.tokens@.len(),
            token_b.position() < self.tokens@.len(),
        ensures
            ids.0 == self.tokens@[token_a.position() as int],
            ids.1 == self.tokens@[token_b.position() as int],
    {
        (address_clone(&self.tokens[token_a]), address_clone(&self.tokens[token_b]))
    }

    /// Records a pair that the pair factory created at `pair_id`.
    pub fn create_pair(&mut self, pair_id: Address)
        ensures
            Self::same_setup(*old(self), *final(self)),
            final(self).pools@ == old(self).pools@,
            final(self).pairs@ == old(self).pairs@.push(PairFixture { pair: pair_id }),
    {
        self.pairs.push(PairFixture { pair: pair_id });
    }

    /// Records that pool `pool_index` gave the reserve of `asset_index` the
    /// index `reserve_index`; the pool keeps its place in the pool list.
    pub fn create_pool_reserve(&mut self, pool_index: usize, asset_index: TokenIndex, reserve_index: u32)
        requires
            pool_index < old(self).pools@.len(),
        ensures
            Self::reserve_recorded(
                *old(self),
                *final(self),
                pool_index as int,
                asset_index,
                reserve_index,
            ),
    {
        let mut pool_fixture = self.pools.remove(pool_index);
        pool_fixture.reserves.insert(asset_index.position(), reserve_index);
        self.pools.insert(pool_index, pool_fixture);
    }

    /// The read of pool `pool_index`'s configuration.
    pub fn read_pool_config(&self, pool_index: usize) -> (read: PoolRead)
        requires
            pool_index < self.pools@.len(),
        ensures
            read.pool == self.pools@[pool_index as int].pool,
            read.key == PoolStorageKey::Config,
    {
        PoolRead { pool: address_clone(&self.pools[pool_index].pool), key: PoolStorageKey::Config }
    }

    /// The read of pool `pool_index`'s emission shares.
    pub fn read_pool_emissions(&self, pool_index: usize) -> (read: PoolRead)
        requires
            pool_index < self.pools@.len(),
        ensures
            read.pool == self.pools@[pool_index as int].pool,
            read.key == PoolStorageKey::PoolEmissions,
    {
        PoolRead {
            pool: address_clone(&self.pools[pool_index].pool),
            key: PoolStorageKey::PoolEmissions,
        }
    }

    /// The read of the configuration of the reserve of `asset_index` in pool
    /// `pool_index`.
    pub fn read_reserve_config(&self, pool_index: usize, asset_index: TokenIndex) -> (read: PoolRead)
        requires
            pool_index < self.pools@.len(),
            asset_index.position() < self.tokens@.len(),
        ensures
            read.pool == self.pools@[pool_index as int].pool,
            read.key == PoolStorageKey::ResConfig(self.tokens@[asset_index.position() as int]),
    {
        let token = address_clone(&self.tokens[asset_index]);
        PoolRead {
            pool: address_clone(&self.pools[pool_index].pool),
            key: PoolStorageKey::ResConfig(token),
        }
    }

    /// The read of the data of the reserve of `asset_index` in pool
    /// `pool_index`.
    pub fn read_reserve_data(&self, pool_index: usize, asset_index: TokenIndex) -> (read: PoolRead)
        requires
            pool_index < self.pools@.len(),
            asset_index.position() < self.tokens@.len(),
        ensures
            read.pool == self.pools@[pool_index as int].pool,
            read.key == PoolStorageKey::ResData(self.tokens@[asset_index.position() as int]),
    {
        let token = address_clone(&self.tokens[asset_index]);
        PoolRead {
            pool: address_clone(&self.pools[pool_index].pool),
            key: PoolStorageKey::ResData(token),
        }
    }

    /// The reads of the configuration and the data of the emission stream of
    /// token type `token_type` of the reserve of `asset_index` in pool
    /// `pool_index`.
    pub fn read_reserve_emissions(&self, pool_index: usize, asset_index: TokenIndex, token_type: u32) -> (reads: (PoolRead, PoolRead))
        requires
            pool_index < self.pools@.len(),
            self.pools@[pool_index as int].spec_reserve_index(asset_index) is Some,
            emission_index(
                self.pools@[pool_index as int].spec_reserve_index(asset_index)->0,
                token_type,
            ) <= u32::MAX,
        ensures
            reads.0.pool == self.pools@[pool_index as int].pool,
            reads.1.pool == self.pools@[pool_index as int].pool,
            reads.0.key matches PoolStorageKey::EmisConfig(index) && index == emission_index(
                self.pools@[pool_index as int].spec_reserve_index(asset_index)->0,
                token_type,
            ),
            reads.1.key matches PoolStorageKey::EmisData(index) && index == emission_index(
                self.pools@[pool_index as int].spec_reserve_index(asset_index)->0,
                token_type,
            ),
    {
        let pool_fixture = &self.pools[pool_index];
        let reserve_index = *pool_fixture.reserves.get(&asset_index.position()).unwrap();
        let res_emis_index = reserve_index * 2 + token_type;
        (
            PoolRead {
                pool: address_clone(&pool_fixture.pool),
                key: PoolStorageKey::EmisConfig(res_emis_index),
            },
            PoolRead {
                pool: address_clone(&pool_fixture.pool),
                key: PoolStorageKey::EmisData(res_emis_index),
            },
        )
    }

    /// Moves the environment's clock `time` seconds forward (held at
    /// `u64::MAX`), keeping its ledger number. Returns the close time and
    /// number that `soroban_sdk::Ledger::timestamp` and `sequence` reported,
    /// and the ledger then applied: `time` seconds after that close time, at
    /// that same number. That the reported values are the environment's
    /// current ones is left unsaid: the ledger is host state shared by every
    /// clone of the environment, which the library does not model.
    pub fn jump(&self, time: u64) -> (r: (u64, u32, LedgerSettings))
        ensures
            r.2 == jumped_ledger(r.0, r.1, time),
            r.2.timestamp == (if r.0 + time > u64::MAX {
                u64::MAX as int
            } else {
                r.0 + time
            }),
            r.2.sequence_number == r.1,
            r.2.min_temp_entry_ttl == 999999,
            r.2.min_persistent_entry_ttl == 999999,
            r.2.max_entry_ttl == 9999999,
            r.2.protocol_version == 20,
            r.2.base_reserve == 10,
    {
        let timestamp = ledger_timestamp(&self.env);
        let sequence = ledger_sequence(&self.env);
        let applied = set_ledger(&self.env, LedgerSettings::after_jump(timestamp, sequence, time));
        (timestamp, sequence, applied)
    }

    /// Moves the environment's clock `time` seconds forward (held at
    /// `u64::MAX`) and its ledger number one ledger per five seconds. Returns
    /// the close time and number that `soroban_sdk::Ledger::timestamp` and
    /// `sequence` reported, and the ledger then applied: `time` seconds after
    /// that close time, `time / 5` ledgers after that number. That the
    /// reported values are the environment's current ones is left unsaid: the
    /// ledger is host state shared by every clone of the environment, which
    /// the library does not model.
    pub fn jump_with_sequence(&self, time: u64) -> (r: (u64, u32, LedgerSettings))
        ensures
            r.2 == jumped_ledger_with_sequence(r.0, r.1, time),
            r.2.timestamp == (if r.0 + time > u64::MAX {
                u64::MAX as int
            } else {
                r.0 + time
            }),
            r.2.sequence_number == (if r.1 + (time / 5) as u32 > u32::MAX {
                u32::MAX as int
            } else {
                r.1 + (time / 5) as u32
            }),
            r.2.min_temp_entry_ttl == 999999,
            r.2.min_persistent_entry_ttl == 999999,
            r.2.max_entry_ttl == 9999999,
            r.2.protocol_version == 20,
            r.2.base_reserve == 10,
    {
        let timestamp = ledger_timestamp(&self.env);
        let sequence = ledger_sequence(&self.env);
        let applied = set_ledger(
            &self.env,
            LedgerSettings::after_jump_with_sequence(timestamp, sequence, time),
        );
        (timestamp, sequence, applied)
    }
}

/// Recording a reserve makes the pool report exactly that index for the
/// asset, leaves every other asset of that pool and every other pool as it
/// was, and keeps the pool list in its order.
pub proof fn lemma_recorded_reserve_reads_back(
    before: TestFixture,
    after: TestFixture,
    pool_index: int,
    asset: TokenIndex,
    other: TokenIndex,
    reserve_index: u32,
)
    requires
        0 <= pool_index < before.pools@.len(),
        TestFixture::reserve_recorded(before, after, pool_index, asset, reserve_index),
    ensures
        after.pools@[pool_index].spec_reserve_index(asset) == Some(reserve_index),
        other != asset ==> after.pools@[pool_index].spec_reserve_index(other)
            == before.pools@[pool_index].spec_reserve_index(other),
        forall|i: int| 0 <= i < after.pools@.len() ==> #[trigger] after.pools@[i].pool
            == before.pools@[i].pool,
{
    crate::token::lemma_position_injective(asset, other);
    assert forall|i: int| 0 <= i < after.pools@.len() implies #[trigger] after.pools@[i].pool
        == before.pools@[i].pool by {
        if i != pool_index {
            assert(after.pools@[i] == before.pools@[i]);
        }
    }
}

/// After recording a reserve, the emission streams of that reserve that a
/// read asks for are those at twice the recorded index plus the token type.
pub proof fn lemma_recorded_reserve_emission_index(
    before: TestFixture,
    after: TestFixture,
    pool_index: int,
    asset: TokenIndex,
    reserve_index: u32,
    token_type: u32,
)
    requires
        0 <= pool_index < before.pools@.len(),
        TestFixture::reserve_recorded(before, after, pool_index, asset, reserve_index),
    ensures
        after.pools@[pool_index].spec_reserve_index(asset) is Some,
        emission_index(after.pools@[pool_index].spec_reserve_index(asset)->0, token_type)
            == reserve_index * 2 + token_type,
{
}

} // verus!
