//! What holds of the operations taken together.

use crate::accounts::AccountsView;
use crate::custody::{minted_shares, released_value};
use crate::error::SolanarollError;
use crate::game::{
    committed_record, ledger_after, record_after, resolution, roll, RefundReason, Resolution,
    OUTCOMES, STAKE_FLOOR,
};
use crate::ledger::LedgerView;
use crate::processor::{
    after_commit, after_process, after_resolve, after_settle, commit_result, processed,
    resolve_result,
};
use crate::record::{GameRecord, RecordState, RECORD_LEN};
use crate::util::{digest_of_u64, slot_hash};
use vstd::prelude::*;

verus! {

/// One thing that happens to the accounts.
pub enum Event {
    /// The program is invoked with the instruction `input`, in the slot and
    /// with the history and the share mint given. Where it asks for shares to
    /// be minted or burned, `token_ok` says whether the token program did so,
    /// and the request is settled.
    Invocation {
        input: Seq<u8>,
        current_slot: u64,
        slot_hashes: Seq<u8>,
        mint_data: Seq<u8>,
        token_ok: bool,
    },
    /// `amount` comes into the escrow from outside.
    Funded { amount: nat },
    /// The participant takes `amount` away. More than the participant holds
    /// cannot be taken: nothing happens then.
    CashedOut { amount: nat },
}

/// The accounts after `event`.
pub open spec fn step(ctx: AccountsView, event: Event) -> AccountsView {
    match event {
        Event::Invocation { input, current_slot, slot_hashes, mint_data, token_ok } => {
            let entered = AccountsView { current_slot, slot_hashes, mint_data, ..ctx };
            match processed(entered, input) {
                Ok(request) => after_settle(after_process(entered, input), request, token_ok),
                Err(_) => entered,
            }
        },
        Event::Funded { amount } => AccountsView {
            ledger: LedgerView { escrow: ctx.ledger.escrow + amount, ..ctx.ledger },
            ..ctx
        },
        Event::CashedOut { amount } => if amount <= ctx.ledger.participant {
            AccountsView {
                ledger: LedgerView {
                    participant: (ctx.ledger.participant - amount) as nat,
                    ..ctx.ledger
                },
                ..ctx
            }
        } else {
            ctx
        },
    }
}

/// The value that `event` brings in from outside, less what it takes out.
pub open spec fn inflow(ctx: AccountsView, event: Event) -> int {
    match event {
        Event::Invocation { .. } => 0,
        Event::Funded { amount } => amount as int,
        Event::CashedOut { amount } => if amount <= ctx.ledger.participant {
            -(amount as int)
        } else {
            0
        },
    }
}

/// The accounts after `events`, one after the other.
pub open spec fn run(ctx: AccountsView, events: Seq<Event>) -> AccountsView
    decreases events.len(),
{
    if events.len() == 0 {
        ctx
    } else {
        step(run(ctx, events.drop_last()), events.last())
    }
}

/// The value that `events` bring in from outside, less what they take out.
pub open spec fn net_inflow(ctx: AccountsView, events: Seq<Event>) -> int
    decreases events.len(),
{
    if events.len() == 0 {
        0
    } else {
        net_inflow(ctx, events.drop_last()) + inflow(run(ctx, events.drop_last()), events.last())
    }
}

/// The end of a bet moves value between the three balances and neither makes
/// nor loses any.
pub proof fn lemma_bet_conserves(
    ledger: LedgerView,
    record: GameRecord,
    reveal_number: u64,
    current_slot: u64,
    history: Seq<u8>,
)
    ensures
        ledger_after(
            ledger,
            resolution(ledger, record, reveal_number, current_slot, history),
        ).total() == ledger.total(),
{
}

/// No event makes or loses value: the three balances together change by
/// exactly what the event brings in from outside.
pub proof fn lemma_step_conserves(ctx: AccountsView, event: Event)
    ensures
        step(ctx, event).ledger.total() == ctx.ledger.total() + inflow(ctx, event),
{
}

/// Conservation: after any sequence of deposits, withdrawals, commitments and
/// resolutions, settled or refused, the escrow, the treasury and the
/// participant together hold what they held before, plus what came in from
/// outside, less what was taken out.
pub proof fn lemma_run_conserves(ctx: AccountsView, events: Seq<Event>)
    ensures
        run(ctx, events).ledger.total() == ctx.ledger.total() + net_inflow(ctx, events),
    decreases events.len(),
{
    if events.len() > 0 {
        lemma_run_conserves(ctx, events.drop_last());
        lemma_step_conserves(run(ctx, events.drop_last()), events.last());
    }
}

/// Rounding never favours the depositor. While shares are issued, a deposit
/// into a pool that holds value mints its part of the supply, rounded down.
/// Withdrawing the shares that a deposit minted releases no more than was
/// deposited, whether they are priced against the pool as it was before the
/// deposit or as it is after it.
pub proof fn lemma_deposit_then_withdraw(amount: nat, pool: nat, supply: nat)
    requires
        supply > 0,
    ensures
        pool > 0 ==> minted_shares(amount, pool, supply) == amount * supply / pool,
        released_value(minted_shares(amount, pool, supply), pool, supply) <= amount,
        released_value(
            minted_shares(amount, pool, supply),
            pool + amount,
            supply + minted_shares(amount, pool, supply),
        ) <= amount,
{
    let shares = minted_shares(amount, pool, supply);
    if pool > 0 {
        assert(shares * pool <= amount * supply) by (nonlinear_arith)
            requires
                shares == amount * supply / pool,
                pool > 0,
        ;
        assert(shares * pool / supply <= amount) by (nonlinear_arith)
            requires
                shares * pool <= amount * supply,
                supply > 0,
        ;
    }
    assert(shares * (pool + amount) <= amount * (supply + shares)) by (nonlinear_arith)
        requires
            shares * pool <= amount * supply,
    ;
    assert(shares * (pool + amount) / (supply + shares) <= amount) by (nonlinear_arith)
        requires
            shares * (pool + amount) <= amount * (supply + shares),
            supply + shares > 0,
    ;
}

/// Every roll lies between 1 and 100.
pub proof fn lemma_roll_in_range(committed_hash: u64, block_hash: Seq<u8>)
    ensures
        1 <= roll(committed_hash, block_hash) <= OUTCOMES,
{
}

/// The outcome of a bet is fixed by the number revealed and the block hash:
/// whatever else the ledger, the record and the slot hold, a resolution that
/// records an outcome records the roll of that number's digest against that
/// hash.
pub proof fn lemma_outcome_fixed(
    ledger: LedgerView,
    record: GameRecord,
    reveal_number: u64,
    current_slot: u64,
    history: Seq<u8>,
    block_hash: Seq<u8>,
)
    requires
        slot_hash(history, record.commit_slot) == Some(block_hash),
    ensures
        ({
            let ended = resolution(ledger, record, reveal_number, current_slot, history);
            let rolled = roll(digest_of_u64(reveal_number), block_hash);
            &&& 1 <= rolled <= OUTCOMES
            &&& ended matches Ok(Resolution::CapExceeded { outcome }) ==> outcome == rolled
            &&& ended matches Ok(Resolution::Lost { outcome }) ==> outcome == rolled
            &&& ended matches Ok(Resolution::Won { outcome, .. }) ==> outcome == rolled
            &&& record_after(record, ended).outcome != record.outcome ==> record_after(
                record,
                ended,
            ).outcome == rolled
        }),
{
}

/// A recorded outcome is final: once a resolution has recorded one, every
/// further resolution of the record is refused and moves nothing.
pub proof fn lemma_resolved_is_final(
    ledger: LedgerView,
    record: GameRecord,
    reveal_number: u64,
    current_slot: u64,
    history: Seq<u8>,
    next_reveal_number: u64,
    next_slot: u64,
    next_history: Seq<u8>,
)
    requires
        resolution(ledger, record, reveal_number, current_slot, history) is Ok,
        !(resolution(ledger, record, reveal_number, current_slot, history) matches Ok(
            Resolution::Refunded(_),
        )),
    ensures
        ({
            let ended = resolution(ledger, record, reveal_number, current_slot, history);
            let ledger_then = ledger_after(ledger, ended);
            let record_then = record_after(record, ended);
            let again = resolution(
                ledger_then,
                record_then,
                next_reveal_number,
                next_slot,
                next_history,
            );
            &&& record_then.state() == RecordState::Resolved
            &&& again == Err::<Resolution, SolanarollError>(SolanarollError::AlreadyResolved)
            &&& ledger_after(ledger_then, again) == ledger_then
            &&& record_after(record_then, again) == record_then
        }),
{
}

/// Revealing a number other than the one committed to sends the whole stake
/// back: the escrow is emptied into the participant's balance, the treasury
/// and the record stay as they are.
pub proof fn lemma_mismatch_refunds(
    ledger: LedgerView,
    record: GameRecord,
    reveal_number: u64,
    current_slot: u64,
    history: Seq<u8>,
)
    requires
        record.state() == RecordState::Committed,
        digest_of_u64(reveal_number) != record.committed_hash,
    ensures
        ({
            let ended = resolution(ledger, record, reveal_number, current_slot, history);
            &&& ended == Ok::<Resolution, SolanarollError>(
                Resolution::Refunded(RefundReason::RevealMismatch),
            )
            &&& ledger_after(ledger, ended) == LedgerView {
                escrow: 0,
                treasury: ledger.treasury,
                participant: ledger.participant + ledger.escrow,
            }
            &&& record_after(record, ended) == record
        }),
{
}

/// No bet is played on an escrow of [`STAKE_FLOOR`] or less: unless the stake
/// goes back without play, the resolution fails, and nothing changes.
pub proof fn lemma_floor_enforced(
    ledger: LedgerView,
    record: GameRecord,
    reveal_number: u64,
    current_slot: u64,
    history: Seq<u8>,
)
    requires
        ledger.escrow <= STAKE_FLOOR,
        !(resolution(ledger, record, reveal_number, current_slot, history) matches Ok(
            Resolution::Refunded(_),
        )),
    ensures
        ({
            let ended = resolution(ledger, record, reveal_number, current_slot, history);
            &&& ended is Err
            &&& record.state() == RecordState::Committed ==> ended == Err::<
                Resolution,
                SolanarollError,
            >(SolanarollError::StakeTooLow)
            &&& ledger_after(ledger, ended) == ledger
            &&& record_after(record, ended) == record
        }),
{
}

/// A failed invocation leaves the accounts as it found them.
pub proof fn lemma_failure_changes_nothing(ctx: AccountsView, input: Seq<u8>)
    requires
        processed(ctx, input) is Err,
    ensures
        after_process(ctx, input) == ctx,
{
}

/// The escrow is never drained in part: a resolution that does not fail
/// leaves it empty.
pub proof fn lemma_escrow_drained(
    ledger: LedgerView,
    record: GameRecord,
    reveal_number: u64,
    current_slot: u64,
    history: Seq<u8>,
)
    requires
        resolution(ledger, record, reveal_number, current_slot, history) is Ok,
    ensures
        ledger_after(
            ledger,
            resolution(ledger, record, reveal_number, current_slot, history),
        ).escrow == 0,
{
}

/// A commitment that was written is what the next invocation reads: the
/// record is committed, with the digest of the number, the threshold and the
/// slot of the commitment, and the rest of the account data is untouched.
pub proof fn lemma_commitment_is_read_back(
    ctx: AccountsView,
    amount: u64,
    reveal_number: u64,
    roll_under: u32,
)
    requires
        commit_result(ctx, amount, roll_under) is Ok,
    ensures
        ({
            let after = after_commit(ctx, amount, reveal_number, roll_under);
            let record = GameRecord::decode(after.game_data);
            &&& after.game_data.len() == ctx.game_data.len()
            &&& after.game_data.skip(RECORD_LEN as int) == ctx.game_data.skip(RECORD_LEN as int)
            &&& after.ledger == ctx.ledger
            &&& record == committed_record(roll_under, reveal_number, ctx.current_slot)
            &&& record.state() == RecordState::Committed
        }),
{
    committed_record(roll_under, reveal_number, ctx.current_slot).lemma_written_then_decoded(
        ctx.game_data,
    );
}

/// An outcome that was written is final for every later invocation: whatever
/// number is revealed, in whatever slot and against whatever history, the
/// resolution is refused and the accounts stay as they are.
pub proof fn lemma_outcome_is_applied_once(
    ctx: AccountsView,
    reveal_number: u64,
    next_reveal_number: u64,
    next_slot: u64,
    next_history: Seq<u8>,
)
    requires
        resolve_result(ctx, reveal_number) is Ok,
        !(resolve_result(ctx, reveal_number) matches Ok(Resolution::Refunded(_))),
    ensures
        ({
            let after = after_resolve(ctx, reveal_number);
            let entered = AccountsView {
                current_slot: next_slot,
                slot_hashes: next_history,
                ..after
            };
            &&& GameRecord::decode(after.game_data).state() == RecordState::Resolved
            &&& 1 <= GameRecord::decode(after.game_data).outcome <= OUTCOMES
            &&& resolve_result(entered, next_reveal_number) == Err::<Resolution, SolanarollError>(
                SolanarollError::AlreadyResolved,
            )
            &&& after_resolve(entered, next_reveal_number) == entered
        }),
{
    let record = GameRecord::decode(ctx.game_data);
    let ended = resolve_result(ctx, reveal_number);
    let block_hash = slot_hash(ctx.slot_hashes, record.commit_slot);
    assert(block_hash is Some);
    lemma_roll_in_range(record.committed_hash, block_hash->0);
    record_after(record, ended).lemma_written_then_decoded(ctx.game_data);
}

} // verus!
