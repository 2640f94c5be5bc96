//! The four operations on the accounts of one invocation.

use crate::accounts::{Accounts, AccountsView};
use crate::custody::{
    deposit_quote, deposit_settlement, quote_deposit, quote_withdraw, settle_deposit,
    settle_withdraw, withdraw_quote, withdraw_settlement,
};
use crate::error::SolanarollError;
use crate::game::{
    commit, commit_check, committed_record, ledger_after, record_after, resolution, resolve,
    Resolution,
};
use crate::instruction::{parsed, SolanarollInstruction};
use crate::record::{GameRecord, RECORD_LEN};
use crate::util::{mint_supply, unpack_mint};
use vstd::prelude::*;

verus! {

/// What an invocation did, or asks the host to do.
#[derive(Clone, Copy, Debug, PartialEq, Eq, Structural)]
pub enum Processed {
    /// A commitment was recorded.
    Committed,
    /// A bet was resolved.
    Resolved(Resolution),
    /// A deposit of `amount` was accepted: the host mints `shares` to the
    /// depositor and then settles.
    MintRequested { shares: u64, amount: u64 },
    /// A withdrawal was accepted: the host burns `shares` of the holder's and
    /// then settles, which releases `value`.
    BurnRequested { shares: u64, value: u64 },
}

/// What a deposit of `amount` is answered with: the shares to mint.
pub open spec fn deposit_request(ctx: AccountsView, amount: u64) -> Result<u64, SolanarollError> {
    if amount == 0 {
        Err(SolanarollError::InvalidAmount)
    } else if ctx.ledger.escrow == 0 {
        Err(SolanarollError::EmptyEscrow)
    } else {
        match mint_supply(ctx.mint_data) {
            None => Err(SolanarollError::ExpectedMint),
            Some(supply) => deposit_quote(ctx.ledger, amount, supply),
        }
    }
}

/// What a withdrawal of `amount` shares is answered with: the value to
/// release.
pub open spec fn withdraw_request(ctx: AccountsView, amount: u64) -> Result<u64, SolanarollError> {
    if amount == 0 {
        Err(SolanarollError::InvalidAmount)
    } else {
        match mint_supply(ctx.mint_data) {
            None => Err(SolanarollError::ExpectedMint),
            Some(supply) => withdraw_quote(ctx.ledger, amount, supply),
        }
    }
}

/// What a commitment is answered with.
pub open spec fn commit_result(ctx: AccountsView, amount: u64, roll_under: u32) -> Result<
    (),
    SolanarollError,
> {
    if !ctx.owns_game() {
        Err(SolanarollError::IncorrectProgramId)
    } else if ctx.game_data.len() < RECORD_LEN {
        Err(SolanarollError::RecordTooShort)
    } else {
        commit_check(GameRecord::decode(ctx.game_data), roll_under, amount)
    }
}

/// The accounts after a commitment was asked for.
pub open spec fn after_commit(ctx: AccountsView, amount: u64, reveal_number: u64, roll_under: u32)
    -> AccountsView {
    if commit_result(ctx, amount, roll_under) is Ok {
        AccountsView {
            game_data: committed_record(roll_under, reveal_number, ctx.current_slot).written_over(
                ctx.game_data,
            ),
            ..ctx
        }
    } else {
        ctx
    }
}

/// What resolving the bet with `reveal_number` is answered with.
pub open spec fn resolve_result(ctx: AccountsView, reveal_number: u64) -> Result<
    Resolution,
    SolanarollError,
> {
    if !ctx.owns_game() {
        Err(SolanarollError::IncorrectProgramId)
    } else if ctx.game_data.len() < RECORD_LEN {
        Err(SolanarollError::RecordTooShort)
    } else {
        resolution(
            ctx.ledger,
            GameRecord::decode(ctx.game_data),
            reveal_number,
            ctx.current_slot,
            ctx.slot_hashes,
        )
    }
}

/// The accounts after resolving the bet with `reveal_number` was asked for.
/// The record is written only where an outcome was recorded.
pub open spec fn after_resolve(ctx: AccountsView, reveal_number: u64) -> AccountsView {
    let ended = resolve_result(ctx, reveal_number);
    AccountsView {
        ledger: ledger_after(ctx.ledger, ended),
        game_data: match ended {
            Err(_) => ctx.game_data,
            Ok(Resolution::Refunded(_)) => ctx.game_data,
            Ok(_) => record_after(GameRecord::decode(ctx.game_data), ended).written_over(
                ctx.game_data,
            ),
        },
        ..ctx
    }
}

/// What the instruction in `input` is answered with.
pub open spec fn processed(ctx: AccountsView, input: Seq<u8>) -> Result<
    Processed,
    SolanarollError,
> {
    match parsed(input) {
        Err(e) => Err(e),
        Ok(SolanarollInstruction::CommitReveal { amount, roll_under, .. }) => {
            match commit_result(ctx, amount, roll_under) {
                Ok(_) => Ok(Processed::Committed),
                Err(e) => Err(e),
            }
        },
        Ok(SolanarollInstruction::ResolveRoll { reveal_number, .. }) => {
            match resolve_result(ctx, reveal_number) {
                Ok(ended) => Ok(Processed::Resolved(ended)),
                Err(e) => Err(e),
            }
        },
        Ok(SolanarollInstruction::Deposit { amount }) => match deposit_request(ctx, amount) {
            Ok(shares) => Ok(Processed::MintRequested { shares, amount }),
            Err(e) => Err(e),
        },
        Ok(SolanarollInstruction::Withdraw { amount }) => match withdraw_request(ctx, amount) {
            Ok(value) => Ok(Processed::BurnRequested { shares: amount, value }),
            Err(e) => Err(e),
        },
    }
}

/// The accounts after the instruction in `input` was processed. Deposits and
/// withdrawals change nothing before they are settled.
pub open spec fn after_process(ctx: AccountsView, input: Seq<u8>) -> AccountsView {
    match parsed(input) {
        Ok(SolanarollInstruction::CommitReveal { reveal_number, amount, roll_under }) => {
            after_commit(ctx, amount, reveal_number, roll_under)
        },
        Ok(SolanarollInstruction::ResolveRoll { reveal_number, .. }) => {
            after_resolve(ctx, reveal_number)
        },
        _ => ctx,
    }
}

/// What settling `request` is answered with, given whether the token program
/// did its part.
pub open spec fn settled(ctx: AccountsView, request: Processed, token_ok: bool) -> Result<
    (),
    SolanarollError,
> {
    match request {
        Processed::MintRequested { amount, .. } => deposit_settlement(ctx.ledger, amount, token_ok),
        Processed::BurnRequested { value, .. } => withdraw_settlement(ctx.ledger, value, token_ok),
        _ => Ok(()),
    }
}

/// The accounts after `request` was settled.
pub open spec fn after_settle(ctx: AccountsView, request: Processed, token_ok: bool)
    -> AccountsView {
    if settled(ctx, request, token_ok) is Err {
        ctx
    } else {
        match request {
            Processed::MintRequested { amount, .. } => AccountsView {
                ledger: ctx.ledger.escrow_to_treasury(amount as nat),
                ..ctx
            },
            Processed::BurnRequested { value, .. } => AccountsView {
                ledger: ctx.ledger.treasury_to_participant(value as nat),
                ..ctx
            },
            _ => ctx,
        }
    }
}

/// The program's operations.
pub struct Processor;

impl Processor {
    /// Decodes the instruction and carries it out on the accounts.
    ///
    /// A commitment or a resolution is complete when this returns. A deposit
    /// or a withdrawal is only checked and priced: the host mints or burns
    /// the shares and then calls [`Processor::settle`].
    pub fn process(ctx: &mut Accounts, instruction_data: &[u8]) -> (out: Result<
        Processed,
        SolanarollError,
    >)
        ensures
            out == processed(old(ctx)@, instruction_data@),
            final(ctx)@ == after_process(old(ctx)@, instruction_data@),
            out is Err ==> final(ctx)@ == old(ctx)@,
            final(ctx)@.ledger.total() == old(ctx)@.ledger.total(),
    {
        let instruction = SolanarollInstruction::unpack(instruction_data)?;
        match instruction {
            SolanarollInstruction::CommitReveal { reveal_number, amount, roll_under } => {
                Self::process_commit_reveal(ctx, amount, reveal_number, roll_under)?;
                Ok(Processed::Committed)
            },
            SolanarollInstruction::ResolveRoll { reveal_number, amount, roll_under } => {
                let ended = Self::process_resolve_roll(ctx, amount, reveal_number, roll_under)?;
                Ok(Processed::Resolved(ended))
            },
            SolanarollInstruction::Deposit { amount } => {
                let shares = Self::process_deposit(ctx, amount)?;
                Ok(Processed::MintRequested { shares, amount })
            },
            SolanarollInstruction::Withdraw { amount } => {
                let value = Self::process_withdraw(ctx, amount)?;
                Ok(Processed::BurnRequested { shares: amount, value })
            },
        }
    }

    /// Checks a deposit of `amount` from the escrow and prices it against
    /// the treasury and the share mint's supply: the shares to mint.
    pub fn process_deposit(ctx: &Accounts, amount: u64) -> (out: Result<u64, SolanarollError>)
        ensures
            out == deposit_request(ctx@, amount),
    {
        if amount == 0 {
            return Err(SolanarollError::InvalidAmount);
        }
        if ctx.ledger.escrow() == 0 {
            return Err(SolanarollError::EmptyEscrow);
        }
        let mint = unpack_mint(ctx.mint_data.as_slice())?;
        quote_deposit(&ctx.ledger, amount, mint.supply)
    }

    /// Checks a withdrawal of `amount` shares and prices it against the
    /// treasury and the share mint's supply: the value to release.
    pub fn process_withdraw(ctx: &Accounts, amount: u64) -> (out: Result<u64, SolanarollError>)
        ensures
            out == withdraw_request(ctx@, amount),
    {
        if amount == 0 {
            return Err(SolanarollError::InvalidAmount);
        }
        let mint = unpack_mint(ctx.mint_data.as_slice())?;
        quote_withdraw(&ctx.ledger, amount, mint.supply)
    }

    /// Records a commitment to `reveal_number` in the game record, with the
    /// current slot.
    pub fn process_commit_reveal(
        ctx: &mut Accounts,
        amount: u64,
        reveal_number: u64,
        roll_under: u32,
    ) -> (out: Result<(), SolanarollError>)
        ensures
            out == commit_result(old(ctx)@, amount, roll_under),
            final(ctx)@ == after_commit(old(ctx)@, amount, reveal_number, roll_under),
            out is Err ==> final(ctx)@ == old(ctx)@,
    {
        if !ctx.owns_game() {
            return Err(SolanarollError::IncorrectProgramId);
        }
        let mut record = match GameRecord::unpack(ctx.game_data.as_slice()) {
            Some(record) => record,
            None => {
                return Err(SolanarollError::RecordTooShort);
            },
        };
        commit(&mut record, roll_under, reveal_number, amount, ctx.current_slot)?;
        record.pack_into(&mut ctx.game_data);
        Ok(())
    }

    /// Resolves the bet of the game record with the number revealed.
    ///
    /// The stake at play is the escrow's balance and the threshold is the
    /// record's: `amount` and `roll_under` are not consulted.
    #[allow(unused_variables)]
    pub fn process_resolve_roll(
        ctx: &mut Accounts,
        amount: u64,
        reveal_number: u64,
        roll_under: u32,
    ) -> (out: Result<Resolution, SolanarollError>)
        ensures
            out == resolve_result(old(ctx)@, reveal_number),
            final(ctx)@ == after_resolve(old(ctx)@, reveal_number),
            out is Err ==> final(ctx)@ == old(ctx)@,
            final(ctx)@.ledger.total() == old(ctx)@.ledger.total(),
    {
        if !ctx.owns_game() {
            return Err(SolanarollError::IncorrectProgramId);
        }
        let mut record = match GameRecord::unpack(ctx.game_data.as_slice()) {
            Some(record) => record,
            None => {
                return Err(SolanarollError::RecordTooShort);
            },
        };
        let ended = resolve(
            &mut ctx.ledger,
            &mut record,
            reveal_number,
            ctx.current_slot,
            ctx.slot_hashes.as_slice(),
        )?;
        match ended {
            Resolution::Refunded(_) => {},
            _ => {
                record.pack_into(&mut ctx.game_data);
            },
        }
        Ok(ended)
    }

    /// Completes what `request` asked the host for: moves the deposit into
    /// the treasury if the shares were minted, or releases the value if the
    /// shares were burned. If the token program failed, nothing moves.
    pub fn settle(ctx: &mut Accounts, request: Processed, token_ok: bool) -> (out: Result<
        (),
        SolanarollError,
    >)
        ensures
            out == settled(old(ctx)@, request, token_ok),
            final(ctx)@ == after_settle(old(ctx)@, request, token_ok),
            out is Err ==> final(ctx)@ == old(ctx)@,
            final(ctx)@.ledger.total() == old(ctx)@.ledger.total(),
    {
        match request {
            Processed::MintRequested { amount, .. } => settle_deposit(
                &mut ctx.ledger,
                amount,
                token_ok,
            ),
            Processed::BurnRequested { value, .. } => settle_withdraw(
                &mut ctx.ledger,
                value,
                token_ok,
            ),
            _ => Ok(()),
        }
    }
}

} // verus!
