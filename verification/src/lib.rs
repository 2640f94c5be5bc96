//! A dice game settled by commit and reveal, and the pooled treasury that
//! backs it.
//!
//! A participant commits to the digest of a secret number. A later block hash
//! is mixed with that commitment into a roll between 1 and 100, and the stake
//! moves between the bet's escrow, the treasury and the participant as the
//! roll decides. Liquidity providers deposit into the treasury against shares
//! and withdraw pro rata.
//!
//! Every operation works on plain values: the host reads the accounts into an
//! [`accounts::Accounts`], calls the [`processor::Processor`], carries out
//! the token operation it asks for, and writes the balances back.

pub mod accounts;
pub mod bytes;
pub mod custody;
pub mod error;
pub mod game;
pub mod instruction;
pub mod laws;
pub mod ledger;
pub mod processor;
pub mod record;
pub mod util;
