//! The bet itself: committing to a secret number, and resolving the bet
//! against a later block hash.

use crate::custody::pro_rata;
use crate::error::SolanarollError;
use crate::ledger::{Ledger, LedgerView};
use crate::record::{
    valid_roll_under, GameRecord, RecordState, MAX_ROLL_UNDER, MIN_ROLL_UNDER,
};
use crate::util::{digest_of_hash, digest_of_u64, get_slot_hash, hash_value, slot_hash};
use vstd::prelude::*;

verus! {

/// A bet is played only while its escrow holds more than this.
pub const STAKE_FLOOR: u64 = 1000;

/// The treasury risks at most one part in this many of its balance on a bet.
pub const MAX_PROFIT_DIVISOR: u64 = 100;

/// The number of equally likely outcomes of a roll.
pub const OUTCOMES: u64 = 100;

/// Why a stake went back without the bet being played.
#[derive(Clone, Copy, Debug, PartialEq, Eq, Structural)]
pub enum RefundReason {
    /// The number revealed is not the one committed to.
    RevealMismatch,
    /// The bet was resolved in the slot of its commitment, or before it.
    TooEarly,
    /// The history of block hashes holds none for the slot of the commitment.
    HashUnavailable,
}

/// How resolving a bet ended.
#[derive(Clone, Copy, Debug, PartialEq, Eq, Structural)]
pub enum Resolution {
    /// The whole escrow went back to the participant, and no outcome was
    /// recorded.
    Refunded(RefundReason),
    /// The winnings at stake exceeded what the treasury may risk: the outcome
    /// was recorded and the whole escrow went back to the participant.
    CapExceeded { outcome: u64 },
    /// The roll reached the threshold: the whole escrow went to the treasury.
    Lost { outcome: u64 },
    /// The roll stayed under the threshold: the whole escrow went to the
    /// participant, and `payout` more from the treasury.
    Won { outcome: u64, payout: u64 },
}

/// `a + b` as a `u64` holds it: the sum less 2^64 where it does not fit.
pub open spec fn wrapped_sum(a: u64, b: u64) -> u64 {
    if a + b > u64::MAX {
        (a + b - 0x1_0000_0000_0000_0000) as u64
    } else {
        (a + b) as u64
    }
}

/// The roll of a bet committed to with `committed_hash` and resolved against
/// the block hash `block_hash`: the digest of the commitment plus the block
/// hash's digest, brought into 1 to 100.
pub open spec fn roll(committed_hash: u64, block_hash: Seq<u8>) -> u64 {
    (digest_of_u64(wrapped_sum(committed_hash, digest_of_hash(block_hash))) % OUTCOMES + 1) as u64
}

/// What a winning bet of `stake` on rolling under `roll_under` earns beyond
/// the stake: the fair odds of 100 to `roll_under - 1`, less the house's one
/// percent, less the stake itself, rounded down.
pub open spec fn winnings(stake: nat, roll_under: u32) -> nat
    recommends
        valid_roll_under(roll_under),
{
    (stake * (100 - roll_under) / (roll_under - 1)) as nat
}

/// The most that a treasury of `treasury` may lose on one bet.
pub open spec fn max_profit(treasury: nat) -> nat {
    treasury / (MAX_PROFIT_DIVISOR as nat)
}

/// What committing is answered with on a record in the given state.
pub open spec fn commit_check(record: GameRecord, roll_under: u32, amount: u64) -> Result<
    (),
    SolanarollError,
> {
    if amount == 0 {
        Err(SolanarollError::InvalidAmount)
    } else if !valid_roll_under(roll_under) {
        Err(SolanarollError::InvalidRollUnder)
    } else {
        match record.state() {
            RecordState::Resolved => Err(SolanarollError::AlreadyResolved),
            RecordState::Committed => Err(SolanarollError::AlreadyCommitted),
            RecordState::Uncommitted => Ok(()),
        }
    }
}

/// The record of a commitment made in `current_slot`.
pub open spec fn committed_record(roll_under: u32, reveal_number: u64, current_slot: u64)
    -> GameRecord {
    GameRecord {
        roll_under,
        committed_hash: digest_of_u64(reveal_number),
        commit_slot: current_slot,
        outcome: 0,
    }
}

/// How resolving the bet of `record` ends, when `reveal_number` is revealed
/// in `current_slot` and `history` is the history of block hashes.
pub open spec fn resolution(
    ledger: LedgerView,
    record: GameRecord,
    reveal_number: u64,
    current_slot: u64,
    history: Seq<u8>,
) -> Result<Resolution, SolanarollError> {
    match record.state() {
        RecordState::Resolved => Err(SolanarollError::AlreadyResolved),
        RecordState::Uncommitted => Err(SolanarollError::NotCommitted),
        RecordState::Committed => if digest_of_u64(reveal_number) != record.committed_hash {
            Ok(Resolution::Refunded(RefundReason::RevealMismatch))
        } else if record.commit_slot >= current_slot {
            Ok(Resolution::Refunded(RefundReason::TooEarly))
        } else {
            match slot_hash(history, record.commit_slot) {
                None => Ok(Resolution::Refunded(RefundReason::HashUnavailable)),
                Some(block_hash) => played(ledger, record, roll(record.committed_hash, block_hash)),
            }
        },
    }
}

/// How the bet of `record` ends once its roll is `outcome`.
///
/// Only a committed bet is played. It is played only while the escrow holds
/// more than [`STAKE_FLOOR`]. Where the winnings at stake exceed what the
/// treasury may risk, the stake goes back. Else the bet is lost on a roll that
/// reaches the threshold and won on one below it; the winnings are paid only
/// where the treasury holds more than them.
pub open spec fn played(ledger: LedgerView, record: GameRecord, outcome: u64) -> Result<
    Resolution,
    SolanarollError,
> {
    let prize = winnings(ledger.escrow, record.roll_under);
    match record.state() {
        RecordState::Resolved => Err(SolanarollError::AlreadyResolved),
        RecordState::Uncommitted => Err(SolanarollError::NotCommitted),
        RecordState::Committed => if ledger.escrow <= STAKE_FLOOR {
            Err(SolanarollError::StakeTooLow)
        } else if prize > max_profit(ledger.treasury) {
            Ok(Resolution::CapExceeded { outcome })
        } else if outcome >= record.roll_under {
            Ok(Resolution::Lost { outcome })
        } else if prize < ledger.treasury {
            Ok(Resolution::Won { outcome, payout: prize as u64 })
        } else {
            Ok(Resolution::Won { outcome, payout: 0 })
        },
    }
}

/// The ledger after a bet ended as `ended` says.
pub open spec fn ledger_after(ledger: LedgerView, ended: Result<Resolution, SolanarollError>)
    -> LedgerView {
    match ended {
        Err(_) => ledger,
        Ok(Resolution::Refunded(_)) => ledger.escrow_to_participant(ledger.escrow),
        Ok(Resolution::CapExceeded { .. }) => ledger.escrow_to_participant(ledger.escrow),
        Ok(Resolution::Lost { .. }) => ledger.escrow_to_treasury(ledger.escrow),
        Ok(Resolution::Won { payout, .. }) => ledger.escrow_to_participant(
            ledger.escrow,
        ).treasury_to_participant(payout as nat),
    }
}

/// The record after a bet ended as `ended` says.
pub open spec fn record_after(record: GameRecord, ended: Result<Resolution, SolanarollError>)
    -> GameRecord {
    match ended {
        Ok(Resolution::CapExceeded { outcome }) => GameRecord { outcome, ..record },
        Ok(Resolution::Lost { outcome }) => GameRecord { outcome, ..record },
        Ok(Resolution::Won { outcome, .. }) => GameRecord { outcome, ..record },
        _ => record,
    }
}

/// Records a commitment to `reveal_number` for a roll under `roll_under`,
/// made in `current_slot` with a stake of `amount`. Only the number's digest
/// is kept. The stake itself is checked when the bet is resolved.
pub fn commit(
    record: &mut GameRecord,
    roll_under: u32,
    reveal_number: u64,
    amount: u64,
    current_slot: u64,
) -> (out: Result<(), SolanarollError>)
    ensures
        out == commit_check(*old(record), roll_under, amount),
        out is Err ==> *final(record) == *old(record),
        out is Ok ==> *final(record) == committed_record(roll_under, reveal_number, current_slot),
{
    if amount == 0 {
        return Err(SolanarollError::InvalidAmount);
    }
    if roll_under < MIN_ROLL_UNDER || roll_under > MAX_ROLL_UNDER {
        return Err(SolanarollError::InvalidRollUnder);
    }
    match record.current_state() {
        RecordState::Resolved => Err(SolanarollError::AlreadyResolved),
        RecordState::Committed => Err(SolanarollError::AlreadyCommitted),
        RecordState::Uncommitted => {
            *record = GameRecord {
                roll_under,
                committed_hash: hash_value(reveal_number),
                commit_slot: current_slot,
                outcome: 0,
            };
            Ok(())
        },
    }
}

/// Rolls for a commitment against a block hash's digest: the digest of their
/// wrapped sum, brought into 1 to 100.
pub fn roll_from(committed_hash: u64, block_digest: u64) -> (outcome: u64)
    ensures
        outcome == digest_of_u64(wrapped_sum(committed_hash, block_digest)) % OUTCOMES + 1,
        1 <= outcome <= OUTCOMES,
{
    let mixed = committed_hash.wrapping_add(block_digest);
    hash_value(mixed) % OUTCOMES + 1
}

/// Settles the bet of `record` with the roll `outcome`: checks the stake and
/// what the treasury may risk, records the outcome, and moves the escrow as
/// [`played`] says. A failure changes neither the ledger nor the record.
pub fn play(ledger: &mut Ledger, record: &mut GameRecord, outcome: u64) -> (out: Result<
    Resolution,
    SolanarollError,
>)
    ensures
        out == played(old(ledger)@, *old(record), outcome),
        final(ledger)@ == ledger_after(old(ledger)@, out),
        *final(record) == record_after(*old(record), out),
        final(ledger)@.total() == old(ledger)@.total(),
{
    match record.current_state() {
        RecordState::Resolved => {
            return Err(SolanarollError::AlreadyResolved);
        },
        RecordState::Uncommitted => {
            return Err(SolanarollError::NotCommitted);
        },
        RecordState::Committed => {},
    }
    let stake = ledger.escrow();
    let treasury = ledger.treasury();
    if stake <= STAKE_FLOOR {
        return Err(SolanarollError::StakeTooLow);
    }
    let cap = treasury / MAX_PROFIT_DIVISOR;
    let odds_for: u64 = (100 - record.roll_under) as u64;
    let odds_against: u64 = (record.roll_under - 1) as u64;
    let prize = match pro_rata(stake, odds_for, odds_against) {
        Some(prize) if prize <= cap => prize,
        _ => {
            record.outcome = outcome;
            ledger.escrow_to_participant(stake);
            return Ok(Resolution::CapExceeded { outcome });
        },
    };
    record.outcome = outcome;
    if outcome >= record.roll_under as u64 {
        ledger.escrow_to_treasury(stake);
        Ok(Resolution::Lost { outcome })
    } else {
        let payout = if prize < treasury {
            prize
        } else {
            0
        };
        ledger.escrow_to_participant(stake);
        ledger.treasury_to_participant(payout);
        Ok(Resolution::Won { outcome, payout })
    }
}

/// Resolves the bet of `record` with the number revealed in `current_slot`,
/// against `history`, the history of block hashes.
///
/// A number that does not match the commitment, a slot that is not after the
/// commitment's, and a history without the commitment's slot each send the
/// whole escrow back to the participant. Otherwise the roll is fixed by the
/// commitment and the block hash, and the escrow moves as [`played`] says. A
/// failure changes neither the ledger nor the record.
pub fn resolve(
    ledger: &mut Ledger,
    record: &mut GameRecord,
    reveal_number: u64,
    current_slot: u64,
    history: &[u8],
) -> (out: Result<Resolution, SolanarollError>)
    ensures
        out == resolution(old(ledger)@, *old(record), reveal_number, current_slot, history@),
        final(ledger)@ == ledger_after(old(ledger)@, out),
        *final(record) == record_after(*old(record), out),
        final(ledger)@.total() == old(ledger)@.total(),
{
    match record.current_state() {
        RecordState::Resolved => {
            return Err(SolanarollError::AlreadyResolved);
        },
        RecordState::Uncommitted => {
            return Err(SolanarollError::NotCommitted);
        },
        RecordState::Committed => {},
    }
    let stake = ledger.escrow();
    if hash_value(reveal_number) != record.committed_hash {
        ledger.escrow_to_participant(stake);
        return Ok(Resolution::Refunded(RefundReason::RevealMismatch));
    }
    if record.commit_slot >= current_slot {
        ledger.escrow_to_participant(stake);
        return Ok(Resolution::Refunded(RefundReason::TooEarly));
    }
    match get_slot_hash(history, record.commit_slot) {
        None => {
            ledger.escrow_to_participant(stake);
            Ok(Resolution::Refunded(RefundReason::HashUnavailable))
        },
        Some(block_hash) => {
            let outcome = roll_from(record.committed_hash, hash_value(block_hash));
            play(ledger, record, outcome)
        },
    }
}

} // verus!
