//! The failures that the operations report.

use vstd::prelude::*;

verus! {

/// Why an operation was turned down. A failed operation changes nothing.
#[derive(Clone, Copy, Debug, PartialEq, Eq, Structural)]
pub enum SolanarollError {
    /// The instruction bytes do not spell an operation.
    InvalidInstruction,
    /// The share mint's account data does not hold an initialised mint.
    ExpectedMint,
    /// An amount of zero, or one that the paying account does not hold.
    InvalidAmount,
    /// The escrow that pays for a deposit is empty.
    EmptyEscrow,
    /// The game record is not owned by the executing program.
    IncorrectProgramId,
    /// The game record's data is shorter than a record.
    RecordTooShort,
    /// The threshold to roll under is outside 2 to 100.
    InvalidRollUnder,
    /// The record already holds a commitment.
    AlreadyCommitted,
    /// The record already holds an outcome.
    AlreadyResolved,
    /// The record holds no commitment to resolve.
    NotCommitted,
    /// The escrow holds no more than the smallest stake that is played.
    StakeTooLow,
    /// A share or value amount does not fit in 64 bits.
    Overflow,
    /// The token program refused to mint or burn the shares.
    TokenProgram,
}

} // verus!
