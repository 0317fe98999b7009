use vstd::prelude::*;

verus! {

/// Protocol version that the fixture's ledger runs.
pub const PROTOCOL_VERSION: u32 = 20;

/// Base reserve of the fixture's ledger, in stroops.
pub const BASE_RESERVE: u32 = 10;

/// Close time of the first ledger: Sept 1st, 2015, the backstop epoch.
pub const GENESIS_TIMESTAMP: u64 = 1441065600;

/// Sequence number of the first ledger.
pub const GENESIS_SEQUENCE: u32 = 150;

/// Minimum entry lifetime, in ledgers, of the first ledger.
pub const GENESIS_ENTRY_TTL: u32 = 500000;

/// Minimum entry lifetime, in ledgers, of every ledger after a jump.
pub const JUMP_ENTRY_TTL: u32 = 999999;

/// Maximum entry lifetime, in ledgers, of every ledger.
pub const MAX_ENTRY_TTL: u32 = 9999999;

/// Seconds per ledger close when a jump also advances the sequence.
pub const SECONDS_PER_LEDGER: u64 = 5;

/// Seconds in a week.
pub const ONE_WEEK: u64 = 7 * 24 * 60 * 60;

/// The ledger parameters that the fixture sets on its environment.
#[derive(Copy, Clone, PartialEq, Eq, Debug)]
pub struct LedgerSettings {
    pub protocol_version: u32,
    pub sequence_number: u32,
    pub timestamp: u64,
    pub network_id: [u8; 32],
    pub base_reserve: u32,
    pub min_temp_entry_ttl: u32,
    pub min_persistent_entry_ttl: u32,
    pub max_entry_ttl: u32,
}

/// `a + b`, held at `u64::MAX` when it does not fit.
pub open spec fn saturating_add_u64(a: u64, b: u64) -> u64 {
    if a + b > u64::MAX {
        u64::MAX
    } else {
        (a + b) as u64
    }
}

/// `a + b`, held at `u32::MAX` when it does not fit.
pub open spec fn saturating_add_u32(a: u32, b: u32) -> u32 {
    if a + b > u32::MAX {
        u32::MAX
    } else {
        (a + b) as u32
    }
}

/// The all-zero network id.
pub open spec fn zero_network_id() -> [u8; 32] {
    vstd::array::spec_array_fill_for_copy_type::<u8, 32>(0u8)
}

/// Ledger parameters with the given clock, sequence and minimum lifetime, and
/// the fixture's fixed protocol, reserve, network and maximum lifetime.
pub open spec fn ledger_at(timestamp: u64, sequence: u32, entry_ttl: u32) -> LedgerSettings {
    LedgerSettings {
        protocol_version: PROTOCOL_VERSION,
        sequence_number: sequence,
        timestamp: timestamp,
        network_id: zero_network_id(),
        base_reserve: BASE_RESERVE,
        min_temp_entry_ttl: entry_ttl,
        min_persistent_entry_ttl: entry_ttl,
        max_entry_ttl: MAX_ENTRY_TTL,
    }
}

/// The first ledger of a fixture.
pub open spec fn genesis_ledger() -> LedgerSettings {
    ledger_at(GENESIS_TIMESTAMP, GENESIS_SEQUENCE, GENESIS_ENTRY_TTL)
}

/// The ledger after moving the clock `time` seconds forward from
/// `(timestamp, sequence)`, with the sequence left where it was.
pub open spec fn jumped_ledger(timestamp: u64, sequence: u32, time: u64) -> LedgerSettings {
    ledger_at(saturating_add_u64(timestamp, time), sequence, JUMP_ENTRY_TTL)
}

/// Ledgers closed in `time` seconds, as the `u32` that the sequence is
/// advanced by (the count is truncated to 32 bits).
pub open spec fn ledgers_in(time: u64) -> u32 {
    (time / SECONDS_PER_LEDGER) as u32
}

/// The ledger after moving the clock `time` seconds forward from
/// `(timestamp, sequence)`, with the sequence advanced by one ledger per
/// `SECONDS_PER_LEDGER` seconds.
pub open spec fn jumped_ledger_with_sequence(timestamp: u64, sequence: u32, time: u64) -> LedgerSettings {
    ledger_at(
        saturating_add_u64(timestamp, time),
        saturating_add_u32(sequence, ledgers_in(time)),
        JUMP_ENTRY_TTL,
    )
}

impl LedgerSettings {
    /// The first ledger of a fixture.
    pub fn genesis() -> (settings: LedgerSettings)
        ensures
            settings == genesis_ledger(),
            settings.timestamp == 1441065600,
            settings.sequence_number == 150,
            settings.min_temp_entry_ttl == 500000,
            settings.min_persistent_entry_ttl == 500000,
            settings.max_entry_ttl == 9999999,
            settings.protocol_version == 20,
            settings.base_reserve == 10,
            forall|i: int| 0 <= i < 32 ==> settings.network_id@[i] == 0u8,
    {
        LedgerSettings {
            protocol_version: PROTOCOL_VERSION,
            sequence_number: GENESIS_SEQUENCE,
            timestamp: GENESIS_TIMESTAMP,
            network_id: [0u8; 32],
            base_reserve: BASE_RESERVE,
            min_temp_entry_ttl: GENESIS_ENTRY_TTL,
            min_persistent_entry_ttl: GENESIS_ENTRY_TTL,
            max_entry_ttl: MAX_ENTRY_TTL,
        }
    }

    /// The ledger `time` seconds after one closed at `timestamp` with number
    /// `sequence`; the sequence does not move.
    pub fn after_jump(timestamp: u64, sequence: u32, time: u64) -> (settings: LedgerSettings)
        ensures
            settings == jumped_ledger(timestamp, sequence, time),
            settings.timestamp == (if timestamp + time > u64::MAX {
                u64::MAX as int
            } else {
                timestamp + time
            }),
            settings.sequence_number == sequence,
            settings.min_temp_entry_ttl == 999999,
            settings.min_persistent_entry_ttl == 999999,
            settings.max_entry_ttl == 9999999,
            settings.protocol_version == 20,
            settings.base_reserve == 10,
            forall|i: int| 0 <= i < 32 ==> settings.network_id@[i] == 0u8,
    {
        LedgerSettings {
            protocol_version: PROTOCOL_VERSION,
            sequence_number: sequence,
            timestamp: timestamp.saturating_add(time),
            network_id: [0u8; 32],
            base_reserve: BASE_RESERVE,
            min_temp_entry_ttl: JUMP_ENTRY_TTL,
            min_persistent_entry_ttl: JUMP_ENTRY_TTL,
            max_entry_ttl: MAX_ENTRY_TTL,
        }
    }

    /// The ledger `time` seconds after one closed at `timestamp` with number
    /// `sequence`; the sequence moves one ledger per five seconds.
    pub fn after_jump_with_sequence(timestamp: u64, sequence: u32, time: u64) -> (settings: LedgerSettings)
        ensures
            settings == jumped_ledger_with_sequence(timestamp, sequence, time),
            settings.timestamp == (if timestamp + time > u64::MAX {
                u64::MAX as int
            } else {
                timestamp + time
            }),
            settings.sequence_number == (if sequence + (time / 5) as u32 > u32::MAX {
                u32::MAX as int
            } else {
                sequence + (time / 5) as u32
            }),
            settings.min_temp_entry_ttl == 999999,
            settings.min_persistent_entry_ttl == 999999,
            settings.max_entry_ttl == 9999999,
            settings.protocol_version == 20,
            settings.base_reserve == 10,
            forall|i: int| 0 <= i < 32 ==> settings.network_id@[i] == 0u8,
    {
        let blocks: u64 = time / SECONDS_PER_LEDGER;
        LedgerSettings {
            protocol_version: PROTOCOL_VERSION,
            sequence_number: sequence.saturating_add(blocks as u32),
            timestamp: timestamp.saturating_add(time),
            network_id: [0u8; 32],
            base_reserve: BASE_RESERVE,
            min_temp_entry_ttl: JUMP_ENTRY_TTL,
            min_persistent_entry_ttl: JUMP_ENTRY_TTL,
            max_entry_ttl: MAX_ENTRY_TTL,
        }
    }
}

/// Whatever the clock, sequence and time, a plain jump lands exactly `time`
/// seconds later (held at `u64::MAX`), keeps the ledger number, and sets the
/// after-jump lifetimes (999999 ledgers minimum for temporary and persistent
/// entries, 9999999 maximum) with protocol 20, base reserve 10 and the zero
/// network id.
pub proof fn lemma_jump_result(timestamp: u64, sequence: u32, time: u64)
    ensures
        ({
            let l = jumped_ledger(timestamp, sequence, time);
            &&& l.timestamp == (if timestamp + time > u64::MAX {
                u64::MAX as int
            } else {
                timestamp + time
            })
            &&& l.sequence_number == sequence
            &&& l.min_temp_entry_ttl == 999999
            &&& l.min_persistent_entry_ttl == 999999
            &&& l.max_entry_ttl == 9999999
            &&& l.protocol_version == 20
            &&& l.base_reserve == 10
            &&& forall|i: int| 0 <= i < 32 ==> l.network_id@[i] == 0u8
        }),
{
}

/// Whatever the clock, sequence and time, a jump with sequence lands exactly
/// `time` seconds later (held at `u64::MAX`), advances the ledger number by
/// `time / 5` (the count cut to 32 bits, the sum held at `u32::MAX`), and sets
/// the same after-jump lifetimes, protocol, base reserve and network id as a
/// plain jump.
pub proof fn lemma_jump_with_sequence_result(timestamp: u64, sequence: u32, time: u64)
    ensures
        ({
            let l = jumped_ledger_with_sequence(timestamp, sequence, time);
            &&& l.timestamp == (if timestamp + time > u64::MAX {
                u64::MAX as int
            } else {
                timestamp + time
            })
            &&& l.sequence_number == (if sequence + (time / 5) as u32 > u32::MAX {
                u32::MAX as int
            } else {
                sequence + (time / 5) as u32
            })
            &&& l.min_temp_entry_ttl == 999999
            &&& l.min_persistent_entry_ttl == 999999
            &&& l.max_entry_ttl == 9999999
            &&& l.protocol_version == 20
            &&& l.base_reserve == 10
            &&& forall|i: int| 0 <= i < 32 ==> l.network_id@[i] == 0u8
        }),
{
}

/// Time never runs backwards: a jump leaves the clock at or after where it
/// was, and exactly `time` seconds later unless the clock would pass
/// `u64::MAX`.
pub proof fn lemma_jump_moves_clock_forward(timestamp: u64, sequence: u32, time: u64)
    ensures
        jumped_ledger(timestamp, sequence, time).timestamp >= timestamp,
        timestamp + time <= u64::MAX ==> jumped_ledger(timestamp, sequence, time).timestamp
            == timestamp + time,
        jumped_ledger(timestamp, sequence, time).sequence_number == sequence,
{
}

/// Two jumps of `a` and then `b` seconds land on the same ledger as one jump
/// of `a + b` seconds (held at `u64::MAX`).
pub proof fn lemma_jumps_compose(timestamp: u64, sequence: u32, a: u64, b: u64)
    ensures
        ({
            let first = jumped_ledger(timestamp, sequence, a);
            jumped_ledger(first.timestamp, first.sequence_number, b)
        }) == jumped_ledger(timestamp, sequence, saturating_add_u64(a, b)),
{
}

/// A jump of zero seconds keeps the clock and the sequence.
pub proof fn lemma_jump_zero_keeps_clock(timestamp: u64, sequence: u32)
    ensures
        jumped_ledger(timestamp, sequence, 0).timestamp == timestamp,
        jumped_ledger(timestamp, sequence, 0).sequence_number == sequence,
        jumped_ledger_with_sequence(timestamp, sequence, 0).timestamp == timestamp,
        jumped_ledger_with_sequence(timestamp, sequence, 0).sequence_number == sequence,
{
    assert(ledgers_in(0) == 0);
}

/// A jump that also advances the sequence moves the clock exactly as a plain
/// jump does, never lowers the sequence, and differs from a plain jump in the
/// sequence alone.
pub proof fn lemma_jump_with_sequence_agrees(timestamp: u64, sequence: u32, time: u64)
    ensures
        jumped_ledger_with_sequence(timestamp, sequence, time).timestamp == jumped_ledger(
            timestamp,
            sequence,
            time,
        ).timestamp,
        jumped_ledger_with_sequence(timestamp, sequence, time).sequence_number >= sequence,
        jumped_ledger_with_sequence(timestamp, sequence, time) == (LedgerSettings {
            sequence_number: jumped_ledger_with_sequence(timestamp, sequence, time).sequence_number,
            ..jumped_ledger(timestamp, sequence, time)
        }),
{
}

/// When the ledger count of `time` fits in 32 bits and the sequence does not
/// overflow, the sequence advances by exactly `time / 5` ledgers.
pub proof fn lemma_jump_with_sequence_counts_ledgers(timestamp: u64, sequence: u32, time: u64)
    requires
        time / SECONDS_PER_LEDGER <= u32::MAX,
        sequence + time / SECONDS_PER_LEDGER <= u32::MAX,
    ensures
        jumped_ledger_with_sequence(timestamp, sequence, time).sequence_number == sequence + time
            / SECONDS_PER_LEDGER,
{
}

} // verus!
