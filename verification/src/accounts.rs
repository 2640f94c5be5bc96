//! The accounts of one invocation, read into plain values.

use crate::ledger::{Ledger, LedgerView};
use vstd::prelude::*;

verus! {

/// The 32-byte key of an account or a program.
#[derive(Clone, Copy, Debug, PartialEq, Eq)]
pub struct Address {
    pub bytes: [u8; 32],
}

impl View for Address {
    type V = Seq<u8>;

    open spec fn view(&self) -> Seq<u8> {
        self.bytes@
    }
}

impl Address {
    /// Whether the two keys are the same.
    pub fn same_as(&self, other: &Address) -> (same: bool)
        ensures
            same <==> self@ == other@,
    {
        let mut i: usize = 0;
        while i < 32
            invariant
                i <= 32,
                forall|k: int| 0 <= k < i ==> self.bytes@[k] == other.bytes@[k],
            decreases 32 - i,
        {
            if self.bytes[i] != other.bytes[i] {
                return false;
            }
            i = i + 1;
        }
        assert(self@ =~= other@);
        true
    }
}

/// What [`Accounts`] holds, as numbers and byte sequences.
pub struct AccountsView {
    /// The key of the executing program.
    pub program_id: Seq<u8>,
    /// The key of the program that owns the game record's account.
    pub game_owner: Seq<u8>,
    /// The data of the game record's account.
    pub game_data: Seq<u8>,
    /// The balances of the escrow, the treasury and the participant.
    pub ledger: LedgerView,
    /// The slot in which the invocation runs.
    pub current_slot: u64,
    /// The history of block hashes.
    pub slot_hashes: Seq<u8>,
    /// The data of the share mint's account.
    pub mint_data: Seq<u8>,
}

/// Everything that one invocation may read or change. The host fills it from
/// the accounts it was handed, and writes `ledger` and `game_data` back once
/// the invocation has succeeded.
#[derive(Clone, Debug)]
pub struct Accounts {
    /// The executing program.
    pub program_id: Address,
    /// The program that owns the game record's account.
    pub game_owner: Address,
    /// The data of the game record's account.
    pub game_data: Vec<u8>,
    /// The balances of the escrow, the treasury and the participant.
    pub ledger: Ledger,
    /// The slot in which the invocation runs.
    pub current_slot: u64,
    /// The history of block hashes.
    pub slot_hashes: Vec<u8>,
    /// The data of the share mint's account.
    pub mint_data: Vec<u8>,
}

impl View for Accounts {
    type V = AccountsView;

    open spec fn view(&self) -> AccountsView {
        AccountsView {
            program_id: self.program_id@,
            game_owner: self.game_owner@,
            game_data: self.game_data@,
            ledger: self.ledger@,
            current_slot: self.current_slot,
            slot_hashes: self.slot_hashes@,
            mint_data: self.mint_data@,
        }
    }
}

impl AccountsView {
    /// Whether the game record is owned by the executing program, which alone
    /// may write to it.
    pub open spec fn owns_game(self) -> bool {
        self.game_owner == self.program_id
    }
}

impl Accounts {
    /// Whether the game record is owned by the executing program.
    pub fn owns_game(&self) -> (owned: bool)
        ensures
            owned == self@.owns_game(),
    {
        self.game_owner.same_as(&self.program_id)
    }
}

} // verus!
