use test_suites::ledger::{
    LedgerSettings, GENESIS_ENTRY_TTL, GENESIS_SEQUENCE, GENESIS_TIMESTAMP, JUMP_ENTRY_TTL,
    MAX_ENTRY_TTL, ONE_WEEK, PROTOCOL_VERSION, BASE_RESERVE,
};

#[test]
fn genesis_is_the_backstop_epoch() {
    let g = LedgerSettings::genesis();
    assert_eq!(g.timestamp, 1441065600);
    assert_eq!(g.sequence_number, 150);
    assert_eq!(g.protocol_version, 20);
    assert_eq!(g.base_reserve, 10);
    assert_eq!(g.min_temp_entry_ttl, 500000);
    assert_eq!(g.min_persistent_entry_ttl, 500000);
    assert_eq!(g.max_entry_ttl, 9999999);
    assert_eq!(g.network_id, [0u8; 32]);
    assert_eq!(GENESIS_TIMESTAMP, 1441065600);
    assert_eq!(GENESIS_SEQUENCE, 150);
    assert_eq!(GENESIS_ENTRY_TTL, 500000);
}

#[test]
fn one_week_in_seconds() {
    assert_eq!(ONE_WEEK, 604800);
}

#[test]
fn jump_moves_clock_and_keeps_sequence() {
    let s = LedgerSettings::after_jump(1000, 42, 250);
    assert_eq!(s.timestamp, 1250);
    assert_eq!(s.sequence_number, 42);
    assert_eq!(s.protocol_version, PROTOCOL_VERSION);
    assert_eq!(s.base_reserve, BASE_RESERVE);
    assert_eq!(s.min_temp_entry_ttl, 999999);
    assert_eq!(s.min_persistent_entry_ttl, JUMP_ENTRY_TTL);
    assert_eq!(s.max_entry_ttl, MAX_ENTRY_TTL);
    assert_eq!(s.network_id, [0u8; 32]);
}

#[test]
fn jump_saturates_at_max_time() {
    let s = LedgerSettings::after_jump(u64::MAX - 3, 7, 10);
    assert_eq!(s.timestamp, u64::MAX);
    assert_eq!(s.sequence_number, 7);
}

#[test]
fn jump_of_zero_keeps_clock() {
    let s = LedgerSettings::after_jump(77, 3, 0);
    assert_eq!(s.timestamp, 77);
    let t = LedgerSettings::after_jump_with_sequence(77, 3, 0);
    assert_eq!(t.timestamp, 77);
    assert_eq!(t.sequence_number, 3);
}

#[test]
fn jumps_compose() {
    let first = LedgerSettings::after_jump(500, 9, 60);
    let second = LedgerSettings::after_jump(first.timestamp, first.sequence_number, 40);
    assert_eq!(second, LedgerSettings::after_jump(500, 9, 100));
    let near_end = LedgerSettings::after_jump(u64::MAX - 50, 9, 40);
    let past_end = LedgerSettings::after_jump(near_end.timestamp, near_end.sequence_number, 40);
    assert_eq!(past_end, LedgerSettings::after_jump(u64::MAX - 50, 9, 80));
}

#[test]
fn jump_with_sequence_counts_five_second_ledgers() {
    let s = LedgerSettings::after_jump_with_sequence(100, 7, 12);
    assert_eq!(s.timestamp, 112);
    assert_eq!(s.sequence_number, 9);
    assert_eq!(s.min_temp_entry_ttl, 999999);
    let week = LedgerSettings::after_jump_with_sequence(0, 150, ONE_WEEK);
    assert_eq!(week.sequence_number, 150 + 120960);
}

#[test]
fn jump_with_sequence_saturates_sequence() {
    let s = LedgerSettings::after_jump_with_sequence(0, u32::MAX - 1, 50);
    assert_eq!(s.sequence_number, u32::MAX);
}

#[test]
fn jump_with_sequence_truncates_ledger_count() {
    let time: u64 = 5 * ((1u64 << 32) + 3);
    let s = LedgerSettings::after_jump_with_sequence(0, 10, time);
    assert_eq!(s.sequence_number, 13);
    assert_eq!(s.timestamp, time);
}

#[test]
fn jump_with_sequence_differs_from_jump_only_in_sequence() {
    let a = LedgerSettings::after_jump(900, 4, 33);
    let b = LedgerSettings::after_jump_with_sequence(900, 4, 33);
    assert_eq!(b.timestamp, a.timestamp);
    assert_eq!(LedgerSettings { sequence_number: b.sequence_number, ..a }, b);
    assert!(b.sequence_number >= 4);
}
