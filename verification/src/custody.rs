//! Deposits into the treasury against shares, and withdrawals of shares
//! against their part of the treasury.
//!
//! Minting and burning shares is the token program's work. Each operation
//! therefore has two steps: a quote, which checks the request and says how
//! many shares to mint or how much value to release, and a settlement, which
//! moves the value once the token program has done its part.

use crate::error::SolanarollError;
use crate::ledger::{Ledger, LedgerView};
use vstd::prelude::*;

verus! {

/// The shares minted for a deposit of `amount` into a pool worth `pool` with
/// `supply` shares issued: `amount` itself while the pool is unseeded, else
/// the deposit's part of the supply, rounded down.
pub open spec fn minted_shares(amount: nat, pool: nat, supply: nat) -> nat {
    if supply == 0 || pool == 0 {
        amount
    } else {
        amount * supply / pool
    }
}

/// The value released for `shares` out of `supply` from a pool worth `pool`:
/// the shares' part of the pool, rounded down, or `shares` itself while the
/// pool is unseeded.
pub open spec fn released_value(shares: nat, pool: nat, supply: nat) -> nat {
    if supply == 0 || pool == 0 {
        shares
    } else {
        shares * pool / supply
    }
}

/// What a deposit of `amount` is answered with: the shares to mint, or why it
/// is turned down.
pub open spec fn deposit_quote(ledger: LedgerView, amount: u64, supply: u64) -> Result<
    u64,
    SolanarollError,
> {
    let shares = minted_shares(amount as nat, ledger.treasury, supply as nat);
    if amount == 0 {
        Err(SolanarollError::InvalidAmount)
    } else if ledger.escrow == 0 {
        Err(SolanarollError::EmptyEscrow)
    } else if amount > ledger.escrow {
        Err(SolanarollError::InvalidAmount)
    } else if shares > u64::MAX {
        Err(SolanarollError::Overflow)
    } else {
        Ok(shares as u64)
    }
}

/// What a withdrawal of `shares` is answered with: the value to release, or
/// why it is turned down.
pub open spec fn withdraw_quote(ledger: LedgerView, shares: u64, supply: u64) -> Result<
    u64,
    SolanarollError,
> {
    let value = released_value(shares as nat, ledger.treasury, supply as nat);
    if shares == 0 {
        Err(SolanarollError::InvalidAmount)
    } else if value > ledger.treasury {
        Err(SolanarollError::InvalidAmount)
    } else {
        Ok(value as u64)
    }
}

/// What settling a deposit of `amount` is answered with, given whether the
/// token program minted the shares.
pub open spec fn deposit_settlement(ledger: LedgerView, amount: u64, minted: bool) -> Result<
    (),
    SolanarollError,
> {
    if !minted {
        Err(SolanarollError::TokenProgram)
    } else if amount == 0 || amount > ledger.escrow {
        Err(SolanarollError::InvalidAmount)
    } else {
        Ok(())
    }
}

/// What settling a withdrawal of `value` is answered with, given whether the
/// token program burned the shares.
pub open spec fn withdraw_settlement(ledger: LedgerView, value: u64, burned: bool) -> Result<
    (),
    SolanarollError,
> {
    if !burned {
        Err(SolanarollError::TokenProgram)
    } else if value > ledger.treasury {
        Err(SolanarollError::InvalidAmount)
    } else {
        Ok(())
    }
}

/// `value * numerator / denominator`, rounded down, if it fits in a `u64`.
pub(crate) fn pro_rata(value: u64, numerator: u64, denominator: u64) -> (part: Option<u64>)
    requires
        denominator > 0,
    ensures
        part is Some <==> value * numerator / (denominator as int) <= u64::MAX,
        part matches Some(p) ==> p == value * numerator / (denominator as int),
{
    assert(value * numerator <= u64::MAX * u64::MAX) by (nonlinear_arith);
    let product: u128 = (value as u128) * (numerator as u128);
    let quotient: u128 = product / (denominator as u128);
    if quotient > u64::MAX as u128 {
        None
    } else {
        Some(quotient as u64)
    }
}

/// Checks a deposit of `amount` from the escrow into the treasury, while
/// `supply` shares are issued, and says how many shares to mint for it.
/// Nothing moves yet.
pub fn quote_deposit(ledger: &Ledger, amount: u64, supply: u64) -> (quote: Result<
    u64,
    SolanarollError,
>)
    ensures
        quote == deposit_quote(ledger@, amount, supply),
{
    if amount == 0 {
        return Err(SolanarollError::InvalidAmount);
    }
    if ledger.escrow() == 0 {
        return Err(SolanarollError::EmptyEscrow);
    }
    if amount > ledger.escrow() {
        return Err(SolanarollError::InvalidAmount);
    }
    let pool = ledger.treasury();
    if supply == 0 || pool == 0 {
        return Ok(amount);
    }
    match pro_rata(amount, supply, pool) {
        Some(shares) => Ok(shares),
        None => Err(SolanarollError::Overflow),
    }
}

/// Checks a withdrawal of `shares` from the treasury, while `supply` shares
/// are issued, and says how much value to release for them. Nothing moves
/// yet.
pub fn quote_withdraw(ledger: &Ledger, shares: u64, supply: u64) -> (quote: Result<
    u64,
    SolanarollError,
>)
    ensures
        quote == withdraw_quote(ledger@, shares, supply),
{
    if shares == 0 {
        return Err(SolanarollError::InvalidAmount);
    }
    let pool = ledger.treasury();
    let value = if supply == 0 || pool == 0 {
        shares
    } else {
        match pro_rata(shares, pool, supply) {
            Some(value) => value,
            None => {
                return Err(SolanarollError::InvalidAmount);
            },
        }
    };
    if value > pool {
        return Err(SolanarollError::InvalidAmount);
    }
    Ok(value)
}

/// Completes a deposit: moves `amount` from the escrow into the treasury,
/// if the shares were minted. Otherwise, and on any failure, nothing moves.
pub fn settle_deposit(ledger: &mut Ledger, amount: u64, minted: bool) -> (out: Result<
    (),
    SolanarollError,
>)
    ensures
        out == deposit_settlement(old(ledger)@, amount, minted),
        out is Err ==> final(ledger)@ == old(ledger)@,
        out is Ok ==> final(ledger)@ == old(ledger)@.escrow_to_treasury(amount as nat),
        final(ledger)@.total() == old(ledger)@.total(),
{
    if !minted {
        return Err(SolanarollError::TokenProgram);
    }
    if amount == 0 || amount > ledger.escrow() {
        return Err(SolanarollError::InvalidAmount);
    }
    ledger.escrow_to_treasury(amount);
    Ok(())
}

/// Completes a withdrawal: moves `value` from the treasury to the
/// participant, if the shares were burned. Otherwise, and on any failure,
/// nothing moves.
pub fn settle_withdraw(ledger: &mut Ledger, value: u64, burned: bool) -> (out: Result<
    (),
    SolanarollError,
>)
    ensures
        out == withdraw_settlement(old(ledger)@, value, burned),
        out is Err ==> final(ledger)@ == old(ledger)@,
        out is Ok ==> final(ledger)@ == old(ledger)@.treasury_to_participant(value as nat),
        final(ledger)@.total() == old(ledger)@.total(),
{
    if !burned {
        return Err(SolanarollError::TokenProgram);
    }
    if value > ledger.treasury() {
        return Err(SolanarollError::InvalidAmount);
    }
    ledger.treasury_to_participant(value);
    Ok(())
}

} // verus!
