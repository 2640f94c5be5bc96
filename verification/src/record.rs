//! The persistent state of one bet.

use crate::bytes::{
    be_bytes_u32, be_bytes_u64, be_u32, be_u64, lemma_be_u32_round_trip, lemma_be_u64_round_trip,
    read_be_u32, read_be_u64, write_be_u32, write_be_u64,
};
use vstd::prelude::*;

verus! {

/// The number of bytes that a record takes at the start of its account data.
pub const RECORD_LEN: usize = 28;

/// The lowest threshold that can be rolled under.
pub const MIN_ROLL_UNDER: u32 = 2;

/// The highest threshold that can be rolled under.
pub const MAX_ROLL_UNDER: u32 = 100;

/// Where a bet stands.
#[derive(Clone, Copy, Debug, PartialEq, Eq, Structural)]
pub enum RecordState {
    /// No commitment was recorded.
    Uncommitted,
    /// A commitment waits to be resolved.
    Committed,
    /// An outcome was recorded. This is final.
    Resolved,
}

/// One bet: the threshold, the commitment, and the outcome once there is one.
#[derive(Clone, Copy, Debug, PartialEq, Eq, Structural)]
pub struct GameRecord {
    /// The bet wins on a roll below this threshold.
    pub roll_under: u32,
    /// The digest of the participant's secret number.
    pub committed_hash: u64,
    /// The slot in which the commitment was made.
    pub commit_slot: u64,
    /// The roll, from 1 to 100, or 0 while there is none.
    pub outcome: u64,
}

/// Whether `roll_under` is a threshold that the game accepts.
pub open spec fn valid_roll_under(roll_under: u32) -> bool {
    MIN_ROLL_UNDER <= roll_under <= MAX_ROLL_UNDER
}

impl GameRecord {
    /// Where the bet stands: resolved once an outcome is recorded, committed
    /// while it holds an accepted threshold and no outcome, else uncommitted.
    pub open spec fn state(self) -> RecordState {
        if self.outcome != 0 {
            RecordState::Resolved
        } else if valid_roll_under(self.roll_under) {
            RecordState::Committed
        } else {
            RecordState::Uncommitted
        }
    }

    /// The record that the first [`RECORD_LEN`] bytes of `data` hold: the
    /// threshold in four bytes, then the commitment, its slot and the outcome
    /// in eight bytes each, all big-endian.
    pub open spec fn decode(data: Seq<u8>) -> GameRecord
        recommends
            data.len() >= RECORD_LEN,
    {
        GameRecord {
            roll_under: be_u32(data.subrange(0, 4)) as u32,
            committed_hash: be_u64(data.subrange(4, 12)) as u64,
            commit_slot: be_u64(data.subrange(12, 20)) as u64,
            outcome: be_u64(data.subrange(20, 28)) as u64,
        }
    }

    /// The [`RECORD_LEN`] bytes that hold the record.
    pub open spec fn encoded(self) -> Seq<u8> {
        be_bytes_u32(self.roll_under) + be_bytes_u64(self.committed_hash) + be_bytes_u64(
            self.commit_slot,
        ) + be_bytes_u64(self.outcome)
    }

    /// Account data `data` with the record written over its start.
    pub open spec fn written_over(self, data: Seq<u8>) -> Seq<u8>
        recommends
            data.len() >= RECORD_LEN,
    {
        self.encoded() + data.skip(RECORD_LEN as int)
    }

    /// A record written over account data is read back as it was, and the
    /// data keeps its length.
    pub proof fn lemma_written_then_decoded(self, data: Seq<u8>)
        requires
            data.len() >= RECORD_LEN,
        ensures
            self.written_over(data).len() == data.len(),
            GameRecord::decode(self.written_over(data)) == self,
            self.written_over(data).skip(RECORD_LEN as int) == data.skip(RECORD_LEN as int),
    {
        lemma_be_u32_round_trip(self.roll_under);
        lemma_be_u64_round_trip(self.committed_hash);
        lemma_be_u64_round_trip(self.commit_slot);
        lemma_be_u64_round_trip(self.outcome);
        let out = self.written_over(data);
        assert(out.subrange(0, 4) =~= be_bytes_u32(self.roll_under));
        assert(out.subrange(4, 12) =~= be_bytes_u64(self.committed_hash));
        assert(out.subrange(12, 20) =~= be_bytes_u64(self.commit_slot));
        assert(out.subrange(20, 28) =~= be_bytes_u64(self.outcome));
        assert(out.skip(RECORD_LEN as int) =~= data.skip(RECORD_LEN as int));
    }

    /// Where the bet stands.
    pub fn current_state(&self) -> (state: RecordState)
        ensures
            state == self.state(),
    {
        if self.outcome != 0 {
            RecordState::Resolved
        } else if MIN_ROLL_UNDER <= self.roll_under && self.roll_under <= MAX_ROLL_UNDER {
            RecordState::Committed
        } else {
            RecordState::Uncommitted
        }
    }

    /// Reads the record at the start of `data`, if `data` is long enough.
    pub fn unpack(data: &[u8]) -> (record: Option<GameRecord>)
        ensures
            record is None <==> data@.len() < RECORD_LEN,
            record matches Some(r) ==> r == GameRecord::decode(data@),
    {
        if data.len() < RECORD_LEN {
            return None;
        }
        let roll_under = read_be_u32(vstd::slice::slice_subrange(data, 0, 4));
        let committed_hash = read_be_u64(vstd::slice::slice_subrange(data, 4, 12));
        let commit_slot = read_be_u64(vstd::slice::slice_subrange(data, 12, 20));
        let outcome = read_be_u64(vstd::slice::slice_subrange(data, 20, 28));
        Some(GameRecord { roll_under, committed_hash, commit_slot, outcome })
    }

    /// Writes the record over the first [`RECORD_LEN`] bytes of `data` and
    /// leaves the rest as it is. Data too short for a record is not touched.
    pub fn pack_into(&self, data: &mut Vec<u8>) -> (written: bool)
        ensures
            written <==> old(data)@.len() >= RECORD_LEN,
            !written ==> final(data)@ == old(data)@,
            written ==> final(data)@ == self.written_over(old(data)@),
    {
        if data.len() < RECORD_LEN {
            return false;
        }
        let roll_under = write_be_u32(self.roll_under);
        let committed_hash = write_be_u64(self.committed_hash);
        let commit_slot = write_be_u64(self.commit_slot);
        let outcome = write_be_u64(self.outcome);
        overwrite(data, 0, roll_under.as_slice());
        overwrite(data, 4, committed_hash.as_slice());
        overwrite(data, 12, commit_slot.as_slice());
        overwrite(data, 20, outcome.as_slice());
        assert(data@ =~= self.written_over(old(data)@));
        true
    }
}

/// Copies `bytes` over `data` from index `at` on.
fn overwrite(data: &mut Vec<u8>, at: usize, bytes: &[u8])
    requires
        at + bytes@.len() <= old(data)@.len(),
    ensures
        final(data)@.len() == old(data)@.len(),
        forall|k: int|
            0 <= k < old(data)@.len() ==> final(data)@[k] == if at <= k < at + bytes@.len() {
                bytes@[k - at]
            } else {
                old(data)@[k]
            },
{
    let mut i: usize = 0;
    while i < bytes.len()
        invariant
            i <= bytes.len(),
            at + bytes.len() <= data.len(),
            data@.len() == old(data)@.len(),
            forall|k: int|
                0 <= k < data@.len() ==> data@[k] == if at <= k < at + i {
                    bytes@[k - at]
                } else {
                    old(data)@[k]
                },
        decreases bytes.len() - i,
    {
        data.set(at + i, bytes[i]);
        i = i + 1;
    }
}

} // verus!
