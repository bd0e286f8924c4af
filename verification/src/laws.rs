use vstd::bytes::{spec_u64_from_le_bytes, spec_u64_to_le_bytes};
use vstd::prelude::*;

use crate::account::{AccountDataView, AccountView};
use crate::address::{counter_seed, derived, Address};
use crate::error::{ProgramError, TokenError};
use crate::handlers::transfer_tokens_outcome;
use crate::instruction::{Instruction, InstructionKind};
use crate::ledger::{account_at, counter_record, executed, holding_record, loaded};
use crate::state::CounterAccount;
use crate::token::{transfer_outcome, TokenHolding};
use crate::validator::{CounterOperation, InitTokenAccount, TransferTokens};

verus! {

/// Derivation is a function of the label and the program: whoever derives from the same
/// label and the same program gets the same address and the same bump, or no address
/// at all.
pub proof fn lemma_derivation_is_deterministic(
    first_label: Seq<u8>,
    first_program: Address,
    second_label: Seq<u8>,
    second_program: Address,
)
    requires
        first_label == second_label,
        first_program == second_program,
    ensures
        derived(first_label, first_program) == derived(second_label, second_program),
{
}

/// Stored bytes hold at most one counter account, and they are its stored form.
pub proof fn lemma_decoding_is_exact(data: Seq<u8>, counter: CounterAccount)
    requires
        CounterAccount::decoding(data) == Ok::<CounterAccount, ProgramError>(counter),
    ensures
        data == counter.encoding(),
{
    vstd::bytes::lemma_auto_spec_u64_to_from_le_bytes();
}

/// The stored form of a counter account is never all zero, so a stored counter account
/// is never taken for an account that was not created.
pub proof fn lemma_stored_counter_is_initialized(program_id: Address, counter: CounterAccount)
    ensures
        !counter_record(program_id, counter).is_uninitialized(),
{
    assert(counter.encoding()[0] == 164);
}

/// After create-counter a read finds the count at zero, and the same instruction a
/// second time is rejected as already initialized.
pub proof fn lemma_counter_is_created_once(
    program_id: Address,
    state: Map<Address, AccountView>,
    create: Instruction,
)
    requires
        InstructionKind::decoding(create.data@) == Ok::<InstructionKind, ProgramError>(
            InstructionKind::InitializeCounter,
        ),
    ensures
        executed(program_id, state, create) matches Ok(after) ==> {
            &&& derived(counter_seed(), program_id) matches Some((address, _))
            &&& account_at(after, address).data matches AccountDataView::Raw(bytes)
            &&& CounterAccount::decoding(bytes) == Ok::<CounterAccount, ProgramError>(
                CounterAccount { count: 0 },
            )
            &&& executed(program_id, after, create) == Err::<
                Map<Address, AccountView>,
                ProgramError,
            >(ProgramError::AlreadyInitialized)
        },
{
    let zero = CounterAccount { count: 0 };
    zero.lemma_encoding_round_trip();
    lemma_stored_counter_is_initialized(program_id, zero);
}

/// Where increment-counter succeeds, decrement-counter on the same accounts succeeds
/// too and puts the ledger back as it was.
pub proof fn lemma_increment_then_decrement_restores(
    program_id: Address,
    state: Map<Address, AccountView>,
    increment: Instruction,
    decrement: Instruction,
)
    requires
        InstructionKind::decoding(increment.data@) == Ok::<InstructionKind, ProgramError>(
            InstructionKind::IncrementCounter,
        ),
        InstructionKind::decoding(decrement.data@) == Ok::<InstructionKind, ProgramError>(
            InstructionKind::DecrementCounter,
        ),
        decrement.program_id == increment.program_id,
        decrement.accounts@ == increment.accounts@,
    ensures
        executed(program_id, state, increment) matches Ok(after) ==> executed(
            program_id,
            after,
            decrement,
        ) == Ok::<Map<Address, AccountView>, ProgramError>(state),
{
    if let Ok(after) = executed(program_id, state, increment) {
        let (address, bump) = derived(counter_seed(), program_id)->Some_0;
        let before = account_at(state, address);
        let bytes = before.data->Raw_0;
        let counter = CounterAccount::decoding(bytes)->Ok_0;
        let up = counter.incremented()->Ok_0;
        lemma_decoding_is_exact(bytes, counter);
        up.lemma_encoding_round_trip();
        lemma_stored_counter_is_initialized(program_id, up);
        assert(state.insert(address, counter_record(program_id, up)).insert(
            address,
            counter_record(program_id, counter),
        ) =~= state);
    }
}

/// decrement-counter on a counter at zero is rejected as an underflow. The ledger stays
/// as it was, as after every rejection.
pub proof fn lemma_decrement_at_zero_is_rejected(
    program_id: Address,
    state: Map<Address, AccountView>,
    decrement: Instruction,
)
    requires
        decrement.program_id == program_id,
        InstructionKind::decoding(decrement.data@) == Ok::<InstructionKind, ProgramError>(
            InstructionKind::DecrementCounter,
        ),
    ensures
        CounterOperation::accepted(program_id, loaded(state, decrement.accounts@)) matches Ok(ctx)
            ==> (ctx.counter.count == 0 ==> executed(program_id, state, decrement) == Err::<
            Map<Address, AccountView>,
            ProgramError,
        >(ProgramError::Underflow)),
{
}

/// The ledger state after the same instruction was executed `n` times in a row, or the
/// first rejection.
pub open spec fn executed_times(
    program_id: Address,
    state: Map<Address, AccountView>,
    instruction: Instruction,
    n: nat,
) -> Result<Map<Address, AccountView>, ProgramError>
    decreases n,
{
    if n == 0 {
        Ok(state)
    } else {
        match executed_times(program_id, state, instruction, (n - 1) as nat) {
            Ok(before) => executed(program_id, before, instruction),
            Err(e) => Err(e),
        }
    }
}

/// Where increment-counter is accepted on a counter at zero, executing it `n` times
/// leaves the count at `n` and the rest of the ledger as it was, for every `n` that a
/// count can hold.
pub proof fn lemma_increments_count_on_ledger(
    program_id: Address,
    state: Map<Address, AccountView>,
    increment: Instruction,
    n: nat,
)
    requires
        n <= u64::MAX,
        increment.program_id == program_id,
        InstructionKind::decoding(increment.data@) == Ok::<InstructionKind, ProgramError>(
            InstructionKind::IncrementCounter,
        ),
    ensures
        CounterOperation::accepted(program_id, loaded(state, increment.accounts@)) matches Ok(ctx)
            ==> (ctx.counter.count == 0 ==> executed_times(program_id, state, increment, n) == Ok::<
            Map<Address, AccountView>,
            ProgramError,
        >(
            state.insert(
                ctx.counter_address,
                counter_record(program_id, CounterAccount { count: n as u64 }),
            ),
        )),
    decreases n,
{
    if let Ok(ctx) = CounterOperation::accepted(program_id, loaded(state, increment.accounts@)) {
        if ctx.counter.count == 0 {
            let address = ctx.counter_address;
            let stored = account_at(state, address);
            let zero = CounterAccount { count: 0 };
            lemma_decoding_is_exact(stored.data->Raw_0, zero);
            if n == 0 {
                assert(state.insert(address, counter_record(program_id, zero)) =~= state);
            } else {
                lemma_increments_count_on_ledger(program_id, state, increment, (n - 1) as nat);
                let before = CounterAccount { count: (n - 1) as u64 };
                let middle = state.insert(address, counter_record(program_id, before));
                before.lemma_encoding_round_trip();
                lemma_stored_counter_is_initialized(program_id, before);
                assert(middle.insert(
                    address,
                    counter_record(program_id, CounterAccount { count: n as u64 }),
                ) =~= state.insert(
                    address,
                    counter_record(program_id, CounterAccount { count: n as u64 }),
                ));
            }
        }
    }
}

/// A counter one step above another comes back to it by one decrement.
pub proof fn lemma_increment_then_decrement(counter: CounterAccount)
    requires
        counter.count < u64::MAX,
    ensures
        counter.incremented() matches Ok(up) && up.decremented() == Ok::<
            CounterAccount,
            ProgramError,
        >(counter),
{
}

/// The counter after `n` increments, or the rejection of the first that is refused.
pub open spec fn incremented_times(
    counter: CounterAccount,
    n: nat,
) -> Result<CounterAccount, ProgramError>
    decreases n,
{
    if n == 0 {
        Ok(counter)
    } else {
        match incremented_times(counter, (n - 1) as nat) {
            Ok(before) => before.incremented(),
            Err(e) => Err(e),
        }
    }
}

/// From zero, `n` increments leave the count at `n`, for every `n` that a count can hold.
pub proof fn lemma_increments_count(n: nat)
    requires
        n <= u64::MAX,
    ensures
        incremented_times(CounterAccount { count: 0 }, n) == Ok::<CounterAccount, ProgramError>(
            CounterAccount { count: n as u64 },
        ),
    decreases n,
{
    if n > 0 {
        lemma_increments_count((n - 1) as nat);
    }
}

/// A transfer that goes through conserves the sum of the two holdings: the destination
/// gains exactly what the source loses, which is the amount.
pub proof fn lemma_transfer_conserves(
    source: TokenHolding,
    destination: TokenHolding,
    authority: Address,
    amount: u64,
)
    ensures
        transfer_outcome(source, destination, authority, amount) matches Ok((s, d)) ==> {
            &&& amount <= source.quantity
            &&& s.quantity + d.quantity == source.quantity + destination.quantity
            &&& d.quantity == destination.quantity + amount
            &&& s.quantity == source.quantity - amount
        },
{
}

/// create-token-holding is idempotent: where it goes through, the same instruction goes
/// through again and changes nothing.
pub proof fn lemma_create_holding_is_idempotent(
    program_id: Address,
    state: Map<Address, AccountView>,
    create: Instruction,
)
    requires
        InstructionKind::decoding(create.data@) == Ok::<InstructionKind, ProgramError>(
            InstructionKind::InitTokenAccount,
        ),
    ensures
        executed(program_id, state, create) matches Ok(after) ==> executed(
            program_id,
            after,
            create,
        ) == Ok::<Map<Address, AccountView>, ProgramError>(after),
{
    if let Ok(after) = executed(program_id, state, create) {
        let ctx = InitTokenAccount::accepted(loaded(state, create.accounts@))->Ok_0;
        let record = holding_record(ctx.token_account.holding);
        assert(after.insert(ctx.token_account.address, record) =~= after);
    }
}

/// Where transfer-tokens goes through between two different holding accounts, the sum
/// of the two holdings is as before and the destination has gained the amount. Between
/// a holding account and itself nothing moves.
pub proof fn lemma_transfer_tokens_conserves(ctx: TransferTokens, amount: u64)
    ensures
        transfer_tokens_outcome(ctx, amount) matches Ok(after) ==> {
            let source = ctx.from_token_account.holding;
            let destination = ctx.to_token_account.holding;
            &&& amount <= source.quantity
            &&& after.from_token_account.holding.quantity + after.to_token_account.holding.quantity
                == source.quantity + destination.quantity
            &&& ctx.from_token_account.address != ctx.to_token_account.address
                ==> after.to_token_account.holding.quantity == destination.quantity + amount
            &&& ctx.from_token_account.address == ctx.to_token_account.address ==> after == ctx
        },
{
}

/// A transfer goes through whenever the source covers the amount, neither holding is
/// frozen, both are of one asset type, the authority owns the source, and the
/// destination can hold the sum.
pub proof fn lemma_valid_transfer_goes_through(
    source: TokenHolding,
    destination: TokenHolding,
    authority: Address,
    amount: u64,
)
    requires
        amount <= source.quantity,
        !source.frozen && !destination.frozen,
        source.mint == destination.mint,
        source.owner == authority,
        destination.quantity + amount <= u64::MAX,
    ensures
        transfer_outcome(source, destination, authority, amount) == Ok::<
            (TokenHolding, TokenHolding),
            TokenError,
        >((source.debited(amount), destination.credited(amount))),
{
}

/// A transfer of more than the source holds is refused, whatever else holds of it.
pub proof fn lemma_overdraft_is_refused(ctx: TransferTokens, amount: u64)
    requires
        amount > ctx.from_token_account.holding.quantity,
    ensures
        transfer_outcome(
            ctx.from_token_account.holding,
            ctx.to_token_account.holding,
            ctx.from,
            amount,
        ) is Err,
        transfer_tokens_outcome(ctx, amount) is Err,
{
}

} // verus!
