//! The operations, as they arrive in instruction bytes.

use crate::bytes::{le_u32, le_u64, lemma_values_fit, read_le_u32, read_le_u64};
use crate::error::SolanarollError;
use vstd::prelude::*;

verus! {

/// An operation that the program carries out.
#[derive(Clone, Copy, Debug, PartialEq, Eq, Structural)]
pub enum SolanarollInstruction {
    /// Deposits value into the treasury against newly minted shares.
    Deposit { amount: u64 },
    /// Burns shares against their part of the treasury.
    Withdraw { amount: u64 },
    /// Commits to a secret number for a roll under a threshold.
    CommitReveal { reveal_number: u64, amount: u64, roll_under: u32 },
    /// Reveals the number and resolves the bet.
    ResolveRoll { reveal_number: u64, amount: u64, roll_under: u32 },
}

/// The instruction that `input` spells, or `InvalidInstruction`.
///
/// The first byte is the tag: 0 commits, 1 resolves, 2 deposits, 3
/// withdraws. Every field is read little-endian from the start of the bytes
/// after the tag: the 64-bit number and amount from the first eight of them,
/// the 32-bit threshold from the first four.
pub open spec fn parsed(input: Seq<u8>) -> Result<SolanarollInstruction, SolanarollError> {
    let rest = input.skip(1);
    if input.len() == 0 || rest.len() < 8 || input[0] > 3 {
        Err(SolanarollError::InvalidInstruction)
    } else if input[0] == 0 {
        Ok(
            SolanarollInstruction::CommitReveal {
                reveal_number: le_u64(rest) as u64,
                amount: le_u64(rest) as u64,
                roll_under: le_u32(rest) as u32,
            },
        )
    } else if input[0] == 1 {
        Ok(
            SolanarollInstruction::ResolveRoll {
                reveal_number: le_u64(rest) as u64,
                amount: le_u64(rest) as u64,
                roll_under: le_u32(rest) as u32,
            },
        )
    } else if input[0] == 2 {
        Ok(SolanarollInstruction::Deposit { amount: le_u64(rest) as u64 })
    } else {
        Ok(SolanarollInstruction::Withdraw { amount: le_u64(rest) as u64 })
    }
}

impl SolanarollInstruction {
    /// Unpacks a byte buffer into an instruction.
    pub fn unpack(input: &[u8]) -> (out: Result<SolanarollInstruction, SolanarollError>)
        ensures
            out == parsed(input@),
    {
        if input.len() == 0 {
            return Err(SolanarollError::InvalidInstruction);
        }
        let tag = input[0];
        let rest = vstd::slice::slice_subrange(input, 1, input.len());
        match tag {
            0 => {
                let reveal_number = Self::unpack_amount(rest)?;
                let amount = Self::unpack_amount(rest)?;
                let roll_under = Self::unpack_amount_32(rest)?;
                Ok(SolanarollInstruction::CommitReveal { reveal_number, amount, roll_under })
            },
            1 => {
                let reveal_number = Self::unpack_amount(rest)?;
                let amount = Self::unpack_amount(rest)?;
                let roll_under = Self::unpack_amount_32(rest)?;
                Ok(SolanarollInstruction::ResolveRoll { reveal_number, amount, roll_under })
            },
            2 => {
                let amount = Self::unpack_amount(rest)?;
                Ok(SolanarollInstruction::Deposit { amount })
            },
            3 => {
                let amount = Self::unpack_amount(rest)?;
                Ok(SolanarollInstruction::Withdraw { amount })
            },
            _ => Err(SolanarollError::InvalidInstruction),
        }
    }

    /// Reads a 64-bit little-endian number from the first eight bytes.
    pub fn unpack_amount(input: &[u8]) -> (out: Result<u64, SolanarollError>)
        ensures
            out == if input@.len() < 8 {
                Err::<u64, SolanarollError>(SolanarollError::InvalidInstruction)
            } else {
                Ok(le_u64(input@) as u64)
            },
    {
        proof {
            lemma_values_fit(input@);
        }
        match read_le_u64(input) {
            Some(amount) => Ok(amount),
            None => Err(SolanarollError::InvalidInstruction),
        }
    }

    /// Reads a 32-bit little-endian number from the first four bytes.
    pub fn unpack_amount_32(input: &[u8]) -> (out: Result<u32, SolanarollError>)
        ensures
            out == if input@.len() < 4 {
                Err::<u32, SolanarollError>(SolanarollError::InvalidInstruction)
            } else {
                Ok(le_u32(input@) as u32)
            },
    {
        proof {
            lemma_values_fit(input@);
        }
        match read_le_u32(input) {
            Some(amount) => Ok(amount),
            None => Err(SolanarollError::InvalidInstruction),
        }
    }
}

} // verus!
