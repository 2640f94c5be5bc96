//! The three balances that an operation moves value between.

use vstd::prelude::*;

verus! {

/// What a [`Ledger`] holds, as numbers.
pub struct LedgerView {
    /// The stake, or the deposit, that waits in escrow.
    pub escrow: nat,
    /// The pooled treasury that backs every bet.
    pub treasury: nat,
    /// The caller's own balance.
    pub participant: nat,
}

impl LedgerView {
    /// All the value on the ledger.
    pub open spec fn total(self) -> nat {
        self.escrow + self.treasury + self.participant
    }

    /// The ledger after `amount` went from the escrow into the treasury.
    pub open spec fn escrow_to_treasury(self, amount: nat) -> LedgerView
        recommends
            amount <= self.escrow,
    {
        LedgerView {
            escrow: (self.escrow - amount) as nat,
            treasury: self.treasury + amount,
            participant: self.participant,
        }
    }

    /// The ledger after `amount` went from the escrow to the participant.
    pub open spec fn escrow_to_participant(self, amount: nat) -> LedgerView
        recommends
            amount <= self.escrow,
    {
        LedgerView {
            escrow: (self.escrow - amount) as nat,
            treasury: self.treasury,
            participant: self.participant + amount,
        }
    }

    /// The ledger after `amount` went from the treasury to the participant.
    pub open spec fn treasury_to_participant(self, amount: nat) -> LedgerView
        recommends
            amount <= self.treasury,
    {
        LedgerView {
            escrow: self.escrow,
            treasury: (self.treasury - amount) as nat,
            participant: self.participant + amount,
        }
    }
}

/// The balances of the escrow, the treasury and the participant during one
/// operation. Their sum always fits in a `u64`, so moving value between them
/// never overflows.
#[derive(Clone, Copy, Debug, PartialEq, Eq)]
pub struct Ledger {
    escrow: u64,
    treasury: u64,
    participant: u64,
}

impl View for Ledger {
    type V = LedgerView;

    closed spec fn view(&self) -> LedgerView {
        LedgerView {
            escrow: self.escrow as nat,
            treasury: self.treasury as nat,
            participant: self.participant as nat,
        }
    }
}

impl Ledger {
    #[verifier::type_invariant]
    spec fn sum_fits(&self) -> bool {
        self.escrow + self.treasury + self.participant <= u64::MAX
    }

    /// A ledger with the given balances, unless their sum exceeds `u64::MAX`.
    pub fn new(escrow: u64, treasury: u64, participant: u64) -> (ledger: Option<Ledger>)
        ensures
            ledger is Some <==> escrow + treasury + participant <= u64::MAX,
            ledger matches Some(l) ==> l@ == (LedgerView {
                escrow: escrow as nat,
                treasury: treasury as nat,
                participant: participant as nat,
            }),
    {
        match escrow.checked_add(treasury) {
            Some(partial) => match partial.checked_add(participant) {
                Some(_) => Some(Ledger { escrow, treasury, participant }),
                None => None,
            },
            None => None,
        }
    }

    /// The balance in escrow.
    pub fn escrow(&self) -> (balance: u64)
        ensures
            balance == self@.escrow,
    {
        self.escrow
    }

    /// The treasury's balance.
    pub fn treasury(&self) -> (balance: u64)
        ensures
            balance == self@.treasury,
    {
        self.treasury
    }

    /// The participant's balance.
    pub fn participant(&self) -> (balance: u64)
        ensures
            balance == self@.participant,
    {
        self.participant
    }

    /// All the value on the ledger.
    pub fn total(&self) -> (sum: u64)
        ensures
            sum == self@.total(),
    {
        proof {
            use_type_invariant(self);
        }
        self.escrow + self.treasury + self.participant
    }

    /// Moves `amount` from the escrow into the treasury.
    pub(crate) fn escrow_to_treasury(&mut self, amount: u64)
        requires
            amount <= old(self)@.escrow,
        ensures
            final(self)@ == old(self)@.escrow_to_treasury(amount as nat),
    {
        proof {
            use_type_invariant(&*self);
        }
        *self = Ledger {
            escrow: self.escrow - amount,
            treasury: self.treasury + amount,
            participant: self.participant,
        };
    }

    /// Moves `amount` from the escrow to the participant.
    pub(crate) fn escrow_to_participant(&mut self, amount: u64)
        requires
            amount <= old(self)@.escrow,
        ensures
            final(self)@ == old(self)@.escrow_to_participant(amount as nat),
    {
        proof {
            use_type_invariant(&*self);
        }
        *self = Ledger {
            escrow: self.escrow - amount,
            treasury: self.treasury,
            participant: self.participant + amount,
        };
    }

    /// Moves `amount` from the treasury to the participant.
    pub(crate) fn treasury_to_participant(&mut self, amount: u64)
        requires
            amount <= old(self)@.treasury,
        ensures
            final(self)@ == old(self)@.treasury_to_participant(amount as nat),
    {
        proof {
            use_type_invariant(&*self);
        }
        *self = Ledger {
            escrow: self.escrow,
            treasury: self.treasury - amount,
            participant: self.participant + amount,
        };
    }
}

} // verus!
