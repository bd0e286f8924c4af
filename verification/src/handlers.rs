use vstd::prelude::*;

use crate::address::{spec_token_program_id, token_program_id};
use crate::error::{ProgramError, TokenError};
use crate::state::CounterAccount;
use crate::token::{call_outcome, invoke, TokenAccount, TransferCall};
use crate::validator::{Counter, CounterOperation, InitTokenAccount, Initialize, TransferTokens};

verus! {

/// The call that transfer-tokens delegates to the token-accounting program: from the
/// sender's holding account to the receiver's, on the sender's authority.
pub open spec fn transfer_call(ctx: TransferTokens, amount: u64) -> TransferCall {
    TransferCall {
        program: spec_token_program_id(),
        source: ctx.from_token_account.address,
        destination: ctx.to_token_account.address,
        authority: ctx.from,
        amount,
    }
}

/// The accounts of transfer-tokens after the delegated call, or the reason for which the
/// token-accounting program refused it.
pub open spec fn transfer_tokens_outcome(
    ctx: TransferTokens,
    amount: u64,
) -> Result<TransferTokens, TokenError> {
    match call_outcome(
        transfer_call(ctx, amount),
        ctx.from_token_account.holding,
        ctx.to_token_account.holding,
    ) {
        Ok((source, destination)) => Ok(
            TransferTokens {
                from_token_account: TokenAccount { holding: source, ..ctx.from_token_account },
                to_token_account: TokenAccount { holding: destination, ..ctx.to_token_account },
                ..ctx
            },
        ),
        Err(e) => Err(e),
    }
}

/// Builds the descriptor of the delegated transfer. It names the token-accounting
/// program, the two holding accounts, the sender as authority, and the amount.
pub fn build_transfer_call(ctx: &TransferTokens, amount: u64) -> (call: TransferCall)
    ensures
        call == transfer_call(*ctx, amount),
{
    TransferCall {
        program: token_program_id(),
        source: ctx.from_token_account.address,
        destination: ctx.to_token_account.address,
        authority: ctx.from,
        amount,
    }
}

/// The greeting: changes nothing and always succeeds.
pub fn initialize(_ctx: &Initialize) -> (r: Result<(), ProgramError>)
    ensures
        r is Ok,
{
    Ok(())
}

/// create-counter: sets the count to zero.
pub fn initialize_counter(ctx: &mut Counter) -> (r: Result<(), ProgramError>)
    ensures
        r is Ok,
        *final(ctx) == (Counter { counter: CounterAccount { count: 0 }, ..*old(ctx) }),
{
    ctx.counter.count = 0;
    Ok(())
}

/// increment-counter: adds one to the count. At the largest count it is refused with
/// `Overflow` and the count stays.
pub fn increment_counter(ctx: &mut CounterOperation) -> (r: Result<(), ProgramError>)
    ensures
        match old(ctx).counter.incremented() {
            Ok(counter) => r is Ok && *final(ctx) == (CounterOperation { counter, ..*old(ctx) }),
            Err(e) => r == Err::<(), ProgramError>(e) && *final(ctx) == *old(ctx),
        },
{
    if ctx.counter.count == u64::MAX {
        return Err(ProgramError::Overflow);
    }
    ctx.counter.count = ctx.counter.count + 1;
    Ok(())
}

/// decrement-counter: takes one from the count. At zero it is refused with `Underflow`
/// and the count stays.
pub fn decrement_counter(ctx: &mut CounterOperation) -> (r: Result<(), ProgramError>)
    ensures
        match old(ctx).counter.decremented() {
            Ok(counter) => r is Ok && *final(ctx) == (CounterOperation { counter, ..*old(ctx) }),
            Err(e) => r == Err::<(), ProgramError>(e) && *final(ctx) == *old(ctx),
        },
{
    if ctx.counter.count == 0 {
        return Err(ProgramError::Underflow);
    }
    ctx.counter.count = ctx.counter.count - 1;
    Ok(())
}

/// create-token-holding: validation has done the work, so this changes nothing and
/// always succeeds.
pub fn init_token_account(_ctx: &InitTokenAccount) -> (r: Result<(), ProgramError>)
    ensures
        r is Ok,
{
    Ok(())
}

/// transfer-tokens: builds the descriptor of the transfer and hands it to the
/// token-accounting program. On success the two holdings are as that program left them;
/// a refusal is passed on as it came and leaves both as they were.
pub fn transfer_tokens(ctx: &mut TransferTokens, amount: u64) -> (r: Result<(), ProgramError>)
    ensures
        match transfer_tokens_outcome(*old(ctx), amount) {
            Ok(after) => r is Ok && *final(ctx) == after,
            Err(e) => r == Err::<(), ProgramError>(ProgramError::Delegated(e)) && *final(ctx)
                == *old(ctx),
        },
{
    let call = build_transfer_call(ctx, amount);
    let mut source = ctx.from_token_account.holding;
    let mut destination = ctx.to_token_account.holding;
    match invoke(&call, &mut source, &mut destination) {
        Ok(()) => {
            ctx.from_token_account.holding = source;
            ctx.to_token_account.holding = destination;
            Ok(())
        },
        Err(e) => Err(ProgramError::Delegated(e)),
    }
}

} // verus!
