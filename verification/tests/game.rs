use solanaroll::error::SolanarollError;
use solanaroll::game::{commit, play, resolve, roll_from, RefundReason, Resolution};
use solanaroll::ledger::Ledger;
use solanaroll::record::{GameRecord, RecordState};
use solanaroll::util::{hash_value, Hash32};

fn ledger(escrow: u64, treasury: u64, participant: u64) -> Ledger {
    Ledger::new(escrow, treasury, participant).unwrap()
}

fn committed(roll_under: u32, reveal_number: u64, slot: u64) -> GameRecord {
    GameRecord { roll_under, committed_hash: hash_value(reveal_number), commit_slot: slot, outcome: 0 }
}

/// A history whose newest entry is that of `newest`; the hash of the entry
/// `i` places back is made of the byte `i + 1`.
fn history(newest: u64, entries: usize) -> Vec<u8> {
    let mut data = Vec::new();
    data.extend_from_slice(&(entries as u64).to_le_bytes());
    for i in 0..entries {
        data.extend_from_slice(&(newest - i as u64).to_le_bytes());
        data.extend_from_slice(&[(i % 251) as u8 + 1; 32]);
    }
    data
}

#[test]
fn commit_records_the_digest_and_the_slot() {
    let mut record = GameRecord { roll_under: 0, committed_hash: 0, commit_slot: 0, outcome: 0 };
    assert_eq!(record.current_state(), RecordState::Uncommitted);
    assert_eq!(commit(&mut record, 50, 1234, 10_000, 77), Ok(()));
    assert_eq!(
        record,
        GameRecord { roll_under: 50, committed_hash: hash_value(1234u64), commit_slot: 77, outcome: 0 }
    );
    assert_ne!(record.committed_hash, 1234);
    assert_eq!(record.current_state(), RecordState::Committed);
}

#[test]
fn commit_accepts_thresholds_from_2_to_100_only() {
    let fresh = GameRecord { roll_under: 0, committed_hash: 0, commit_slot: 0, outcome: 0 };
    for roll_under in [0u32, 1, 101, u32::MAX] {
        let mut record = fresh;
        assert_eq!(
            commit(&mut record, roll_under, 1, 10_000, 5),
            Err(SolanarollError::InvalidRollUnder)
        );
        assert_eq!(record, fresh);
    }
    for roll_under in [2u32, 100] {
        let mut record = fresh;
        assert_eq!(commit(&mut record, roll_under, 1, 10_000, 5), Ok(()));
        assert_eq!(record.roll_under, roll_under);
    }
}

#[test]
fn commit_rejects_a_stake_of_zero() {
    let fresh = GameRecord { roll_under: 0, committed_hash: 0, commit_slot: 0, outcome: 0 };
    let mut record = fresh;
    assert_eq!(commit(&mut record, 50, 1, 0, 5), Err(SolanarollError::InvalidAmount));
    assert_eq!(record, fresh);
}

#[test]
fn commit_needs_an_uncommitted_record() {
    let mut record = committed(50, 1, 5);
    let before = record;
    assert_eq!(commit(&mut record, 60, 2, 10_000, 6), Err(SolanarollError::AlreadyCommitted));
    assert_eq!(record, before);
    let mut resolved = GameRecord { outcome: 33, ..before };
    assert_eq!(resolved.current_state(), RecordState::Resolved);
    assert_eq!(commit(&mut resolved, 60, 2, 10_000, 6), Err(SolanarollError::AlreadyResolved));
    assert_eq!(resolved, GameRecord { outcome: 33, ..before });
}

#[test]
fn roll_is_between_1_and_100_and_fixed_by_its_inputs() {
    for committed_hash in [0u64, 1, 99, u64::MAX, 1 << 63] {
        for block_digest in [0u64, 5, u64::MAX, (1 << 63) + 17] {
            let outcome = roll_from(committed_hash, block_digest);
            assert!((1..=100).contains(&outcome));
            assert_eq!(outcome, roll_from(committed_hash, block_digest));
            let mixed = hash_value(committed_hash.wrapping_add(block_digest));
            assert_eq!(outcome, mixed % 100 + 1);
        }
    }
}

#[test]
fn winnings_above_one_percent_of_the_treasury_void_the_bet() {
    let mut l = ledger(10_000, 1_000_000, 0);
    let mut record = committed(50, 1, 5);
    assert_eq!(play(&mut l, &mut record, 20), Ok(Resolution::CapExceeded { outcome: 20 }));
    assert_eq!((l.escrow(), l.treasury(), l.participant()), (0, 1_000_000, 10_000));
    assert_eq!(record.outcome, 20);
    let mut l = ledger(10_000, 1_000_000, 0);
    let mut record = committed(50, 1, 5);
    assert_eq!(play(&mut l, &mut record, 80), Ok(Resolution::CapExceeded { outcome: 80 }));
    assert_eq!((l.escrow(), l.treasury(), l.participant()), (0, 1_000_000, 10_000));
}

#[test]
fn roll_under_the_threshold_wins_stake_and_winnings() {
    let mut l = ledger(10_000, 5_000_000, 0);
    let mut record = committed(50, 1, 5);
    assert_eq!(play(&mut l, &mut record, 49), Ok(Resolution::Won { outcome: 49, payout: 10_204 }));
    assert_eq!((l.escrow(), l.treasury(), l.participant()), (0, 4_989_796, 20_204));
    assert_eq!(record.outcome, 49);
    assert_eq!(record.current_state(), RecordState::Resolved);
}

#[test]
fn roll_at_or_over_the_threshold_loses_the_stake() {
    for outcome in [50u64, 51, 100] {
        let mut l = ledger(10_000, 5_000_000, 3);
        let mut record = committed(50, 1, 5);
        assert_eq!(play(&mut l, &mut record, outcome), Ok(Resolution::Lost { outcome }));
        assert_eq!((l.escrow(), l.treasury(), l.participant()), (0, 5_010_000, 3));
        assert_eq!(record.outcome, outcome);
    }
}

#[test]
fn winnings_follow_the_odds_less_one_percent() {
    let cases = [
        (2u32, 2_000u64, 196_000u64),
        (3, 2_000, 97_000),
        (51, 2_000, 1_960),
        (96, 1_001, 42),
        (99, 5_000, 51),
        (100, 5_000, 0),
    ];
    for (roll_under, stake, winnings) in cases {
        let mut l = ledger(stake, 100_000_000, 0);
        let mut record = committed(roll_under, 1, 5);
        assert_eq!(play(&mut l, &mut record, 1), Ok(Resolution::Won { outcome: 1, payout: winnings }));
        assert_eq!(l.participant(), stake + winnings);
        assert_eq!(l.treasury(), 100_000_000 - winnings);
    }
}

#[test]
fn winnings_equal_to_the_cap_are_played() {
    let mut l = ledger(10_000, 1_020_400, 0);
    let mut record = committed(50, 1, 5);
    assert_eq!(play(&mut l, &mut record, 1), Ok(Resolution::Won { outcome: 1, payout: 10_204 }));
    let mut l = ledger(10_000, 1_020_399, 0);
    let mut record = committed(50, 1, 5);
    assert_eq!(play(&mut l, &mut record, 1), Ok(Resolution::CapExceeded { outcome: 1 }));
}

#[test]
fn empty_treasury_returns_the_stake_of_a_winner() {
    let mut l = ledger(5_000, 0, 0);
    let mut record = committed(100, 1, 5);
    assert_eq!(play(&mut l, &mut record, 99), Ok(Resolution::Won { outcome: 99, payout: 0 }));
    assert_eq!((l.escrow(), l.treasury(), l.participant()), (0, 0, 5_000));
}

#[test]
fn huge_winnings_void_the_bet() {
    let mut l = ledger(u64::MAX / 2, u64::MAX / 2, 0);
    let mut record = committed(2, 1, 5);
    assert_eq!(play(&mut l, &mut record, 1), Ok(Resolution::CapExceeded { outcome: 1 }));
    assert_eq!((l.escrow(), l.treasury(), l.participant()), (0, u64::MAX / 2, u64::MAX / 2));
}

#[test]
fn stake_of_1000_or_less_is_not_played() {
    for stake in [0u64, 1, 999, 1000] {
        let mut l = ledger(stake, 5_000_000, 7);
        let mut record = committed(50, 1, 5);
        let before = record;
        assert_eq!(play(&mut l, &mut record, 20), Err(SolanarollError::StakeTooLow));
        assert_eq!(l, ledger(stake, 5_000_000, 7));
        assert_eq!(record, before);
    }
    let mut l = ledger(1001, 5_000_000, 7);
    let mut record = committed(50, 1, 5);
    assert_eq!(play(&mut l, &mut record, 80), Ok(Resolution::Lost { outcome: 80 }));
}

#[test]
fn only_a_committed_bet_is_played() {
    let mut l = ledger(10_000, 5_000_000, 0);
    let mut fresh = GameRecord { roll_under: 0, committed_hash: 0, commit_slot: 0, outcome: 0 };
    assert_eq!(play(&mut l, &mut fresh, 20), Err(SolanarollError::NotCommitted));
    let mut odd = GameRecord { roll_under: 1, committed_hash: 0, commit_slot: 0, outcome: 0 };
    assert_eq!(play(&mut l, &mut odd, 20), Err(SolanarollError::NotCommitted));
    let mut resolved = GameRecord { outcome: 20, ..committed(50, 1, 5) };
    assert_eq!(play(&mut l, &mut resolved, 20), Err(SolanarollError::AlreadyResolved));
    assert_eq!(l, ledger(10_000, 5_000_000, 0));
}

#[test]
fn wrong_number_sends_the_stake_back() {
    let mut l = ledger(10_000, 5_000_000, 11);
    let mut record = committed(50, 1234, 98);
    let before = record;
    assert_eq!(
        resolve(&mut l, &mut record, 1235, 100, &history(99, 5)),
        Ok(Resolution::Refunded(RefundReason::RevealMismatch))
    );
    assert_eq!((l.escrow(), l.treasury(), l.participant()), (0, 5_000_000, 10_011));
    assert_eq!(record, before);
}

#[test]
fn wrong_number_sends_even_a_small_stake_back() {
    let mut l = ledger(500, 5_000_000, 0);
    let mut record = committed(50, 1234, 98);
    assert_eq!(
        resolve(&mut l, &mut record, 1, 100, &history(99, 5)),
        Ok(Resolution::Refunded(RefundReason::RevealMismatch))
    );
    assert_eq!((l.escrow(), l.treasury(), l.participant()), (0, 5_000_000, 500));
}

#[test]
fn resolving_in_the_slot_of_the_commitment_sends_the_stake_back() {
    for current_slot in [0u64, 97, 98] {
        let mut l = ledger(10_000, 5_000_000, 0);
        let mut record = committed(50, 1234, 98);
        let before = record;
        assert_eq!(
            resolve(&mut l, &mut record, 1234, current_slot, &history(99, 5)),
            Ok(Resolution::Refunded(RefundReason::TooEarly))
        );
        assert_eq!((l.escrow(), l.treasury(), l.participant()), (0, 5_000_000, 10_000));
        assert_eq!(record, before);
    }
}

#[test]
fn missing_block_hash_sends_the_stake_back() {
    let histories = [history(99, 5), history(97, 3), Vec::new(), history(5000, 600)];
    for data in histories.iter() {
        let mut l = ledger(10_000, 5_000_000, 0);
        let mut record = committed(50, 1234, if data.len() > 20_000 { 4000 } else { 94 });
        let before = record;
        let slot = record.commit_slot + 1000;
        assert_eq!(
            resolve(&mut l, &mut record, 1234, slot, data),
            Ok(Resolution::Refunded(RefundReason::HashUnavailable))
        );
        assert_eq!((l.escrow(), l.treasury(), l.participant()), (0, 5_000_000, 10_000));
        assert_eq!(record, before);
    }
}

#[test]
fn resolve_rolls_from_the_commitment_and_the_block_hash() {
    for reveal_number in 0u64..40 {
        let mut l = ledger(10_000, 5_000_000, 0);
        let mut record = committed(50, reveal_number, 98);
        let block_digest = hash_value(Hash32 { bytes: [2; 32] });
        let outcome = roll_from(hash_value(reveal_number), block_digest);
        let ended = resolve(&mut l, &mut record, reveal_number, 100, &history(99, 5));
        if outcome < 50 {
            assert_eq!(ended, Ok(Resolution::Won { outcome, payout: 10_204 }));
            assert_eq!((l.escrow(), l.treasury(), l.participant()), (0, 4_989_796, 20_204));
        } else {
            assert_eq!(ended, Ok(Resolution::Lost { outcome }));
            assert_eq!((l.escrow(), l.treasury(), l.participant()), (0, 5_010_000, 0));
        }
        assert_eq!(record.outcome, outcome);
        assert_eq!(l.total(), 5_010_000);
    }
}

#[test]
fn resolve_gives_the_same_outcome_for_the_same_number_and_hash() {
    let data = history(99, 5);
    let mut first = committed(50, 4321, 97);
    let mut second = committed(90, 4321, 97);
    let mut l1 = ledger(10_000, 5_000_000, 0);
    let mut l2 = ledger(2_000, 900_000_000, 55);
    resolve(&mut l1, &mut first, 4321, 100, &data).unwrap();
    resolve(&mut l2, &mut second, 4321, 98, &data).unwrap();
    assert_eq!(first.outcome, second.outcome);
    assert!((1..=100).contains(&first.outcome));
}

#[test]
fn resolved_record_is_final() {
    let data = history(99, 5);
    let mut l = ledger(10_000, 5_000_000, 0);
    let mut record = committed(50, 1234, 98);
    resolve(&mut l, &mut record, 1234, 100, &data).unwrap();
    let after = l;
    let recorded = record;
    assert_eq!(record.current_state(), RecordState::Resolved);
    assert_eq!(resolve(&mut l, &mut record, 1234, 100, &data), Err(SolanarollError::AlreadyResolved));
    assert_eq!(resolve(&mut l, &mut record, 1, 101, &data), Err(SolanarollError::AlreadyResolved));
    assert_eq!(l, after);
    assert_eq!(record, recorded);
}

#[test]
fn resolve_fails_below_the_floor_without_a_change() {
    let data = history(99, 5);
    for stake in [0u64, 1000] {
        let mut l = ledger(stake, 5_000_000, 9);
        let mut record = committed(50, 1234, 98);
        let before = record;
        assert_eq!(resolve(&mut l, &mut record, 1234, 100, &data), Err(SolanarollError::StakeTooLow));
        assert_eq!(l, ledger(stake, 5_000_000, 9));
        assert_eq!(record, before);
    }
}

#[test]
fn resolve_needs_a_commitment() {
    let data = history(99, 5);
    let mut l = ledger(10_000, 5_000_000, 9);
    let mut fresh = GameRecord { roll_under: 0, committed_hash: 0, commit_slot: 0, outcome: 0 };
    assert_eq!(resolve(&mut l, &mut fresh, 1, 100, &data), Err(SolanarollError::NotCommitted));
    assert_eq!(l, ledger(10_000, 5_000_000, 9));
}
