use vstd::prelude::*;

use crate::account::{
    infos_view, Account, AccountData, AccountDataView, AccountInfo, AccountInfoView, AccountMeta,
    AccountView,
};
use crate::address::{spec_token_program_id, token_program_id, Address};
use crate::error::ProgramError;
use crate::handlers::{
    decrement_counter, increment_counter, init_token_account, initialize, initialize_counter,
    transfer_tokens, transfer_tokens_outcome,
};
use crate::instruction::{Instruction, InstructionKind};
use crate::state::CounterAccount;
use crate::token::TokenHolding;
use crate::validator::{Counter, CounterOperation, InitTokenAccount, Initialize, TransferTokens};

verus! {

/// The account that a ledger state holds at `key`. An address that nothing was stored at
/// holds the vacant account.
pub open spec fn account_at(state: Map<Address, AccountView>, key: Address) -> AccountView {
    if state.contains_key(key) {
        state[key]
    } else {
        AccountView::vacant()
    }
}

/// The accounts that an instruction sees: for each entry of its account list, the entry
/// and the account that the ledger state holds at its address.
pub open spec fn loaded(
    state: Map<Address, AccountView>,
    metas: Seq<AccountMeta>,
) -> Seq<AccountInfoView> {
    Seq::new(
        metas.len(),
        |i: int|
            AccountInfoView {
                key: metas[i].pubkey,
                is_signer: metas[i].is_signer,
                is_writable: metas[i].is_writable,
                account: account_at(state, metas[i].pubkey),
            },
    )
}

/// A counter account as stored: the program owns it, and it holds the counter in its
/// stored form.
pub open spec fn counter_record(program_id: Address, counter: CounterAccount) -> AccountView {
    AccountView { owner: program_id, data: AccountDataView::Raw(counter.encoding()) }
}

/// A holding account as stored: the token-accounting program owns it.
pub open spec fn holding_record(holding: TokenHolding) -> AccountView {
    AccountView { owner: spec_token_program_id(), data: AccountDataView::Holding(holding) }
}

/// The ledger state after one operation of the program on the accounts it was given,
/// or the rejection. Validation comes first, the handler second; the state changes only
/// where both succeed.
pub open spec fn applied(
    program_id: Address,
    state: Map<Address, AccountView>,
    kind: InstructionKind,
    accounts: Seq<AccountInfoView>,
) -> Result<Map<Address, AccountView>, ProgramError> {
    match kind {
        InstructionKind::Initialize => Ok(state),
        InstructionKind::InitializeCounter => match Counter::accepted(program_id, accounts) {
            Ok(ctx) => Ok(
                state.insert(
                    ctx.counter_address,
                    counter_record(program_id, CounterAccount { count: 0 }),
                ),
            ),
            Err(e) => Err(e),
        },
        InstructionKind::IncrementCounter => match CounterOperation::accepted(
            program_id,
            accounts,
        ) {
            Ok(ctx) => match ctx.counter.incremented() {
                Ok(counter) => Ok(
                    state.insert(ctx.counter_address, counter_record(program_id, counter)),
                ),
                Err(e) => Err(e),
            },
            Err(e) => Err(e),
        },
        InstructionKind::DecrementCounter => match CounterOperation::accepted(
            program_id,
            accounts,
        ) {
            Ok(ctx) => match ctx.counter.decremented() {
                Ok(counter) => Ok(
                    state.insert(ctx.counter_address, counter_record(program_id, counter)),
                ),
                Err(e) => Err(e),
            },
            Err(e) => Err(e),
        },
        InstructionKind::InitTokenAccount => match InitTokenAccount::accepted(accounts) {
            Ok(ctx) => Ok(
                state.insert(ctx.token_account.address, holding_record(ctx.token_account.holding)),
            ),
            Err(e) => Err(e),
        },
        InstructionKind::TransferTokens { amount } => match TransferTokens::accepted(accounts) {
            Ok(ctx) => match transfer_tokens_outcome(ctx, amount) {
                Ok(after) => Ok(
                    state.insert(
                        after.to_token_account.address,
                        holding_record(after.to_token_account.holding),
                    ).insert(
                        after.from_token_account.address,
                        holding_record(after.from_token_account.holding),
                    ),
                ),
                Err(e) => Err(ProgramError::Delegated(e)),
            },
            Err(e) => Err(e),
        },
    }
}

/// The ledger state after one instruction, or the rejection. An instruction for another
/// program or with unreadable data is rejected before any account is looked at.
pub open spec fn executed(
    program_id: Address,
    state: Map<Address, AccountView>,
    instruction: Instruction,
) -> Result<Map<Address, AccountView>, ProgramError> {
    if instruction.program_id != program_id {
        Err(ProgramError::IncorrectProgramId)
    } else {
        match InstructionKind::decoding(instruction.data@) {
            Ok(kind) => applied(program_id, state, kind, loaded(state, instruction.accounts@)),
            Err(e) => Err(e),
        }
    }
}

/// One stored account with its address.
struct Entry {
    key: Address,
    account: Account,
}

/// The accounts of one deployment of the program, by address. An instruction is executed
/// on the ledger as a whole: it changes the ledger where every step succeeds, and
/// leaves it as it was where one fails.
pub struct Ledger {
    program_id: Address,
    entries: Vec<Entry>,
}

/// The state that a list of entries stands for. Where an address occurs twice, the later
/// entry counts.
spec fn entries_map(entries: Seq<Entry>) -> Map<Address, AccountView>
    decreases entries.len(),
{
    if entries.len() == 0 {
        Map::empty()
    } else {
        entries_map(entries.drop_last()).insert(entries.last().key, entries.last().account@)
    }
}

/// `i` is the place of the entry that counts for `key`: the last one with that address.
spec fn is_last_match(entries: Seq<Entry>, key: Address, i: int) -> bool {
    &&& 0 <= i < entries.len()
    &&& entries[i].key == key
    &&& forall|j: int| i < j < entries.len() ==> entries[j].key != key
}

/// The state holds at `key` the account of the last entry with that address.
proof fn lemma_map_at(entries: Seq<Entry>, key: Address, i: int)
    requires
        is_last_match(entries, key, i),
    ensures
        entries_map(entries).contains_key(key),
        entries_map(entries)[key] == entries[i].account@,
    decreases entries.len(),
{
    if i < entries.len() - 1 {
        lemma_map_at(entries.drop_last(), key, i);
    }
}

/// The state holds nothing at an address that no entry has.
proof fn lemma_map_absent(entries: Seq<Entry>, key: Address)
    requires
        forall|j: int| 0 <= j < entries.len() ==> entries[j].key != key,
    ensures
        !entries_map(entries).contains_key(key),
    decreases entries.len(),
{
    if entries.len() > 0 {
        lemma_map_absent(entries.drop_last(), key);
    }
}

/// Replacing the last entry with an address stores the new account at that address and
/// leaves every other address as it was.
proof fn lemma_map_update(entries: Seq<Entry>, i: int, entry: Entry)
    requires
        is_last_match(entries, entry.key, i),
    ensures
        entries_map(entries.update(i, entry)) == entries_map(entries).insert(
            entry.key,
            entry.account@,
        ),
    decreases entries.len(),
{
    let updated = entries.update(i, entry);
    if i < entries.len() - 1 {
        lemma_map_update(entries.drop_last(), i, entry);
        assert(updated.drop_last() =~= entries.drop_last().update(i, entry));
    } else {
        assert(updated.drop_last() =~= entries.drop_last());
    }
}

impl View for Ledger {
    type V = Map<Address, AccountView>;

    closed spec fn view(&self) -> Map<Address, AccountView> {
        entries_map(self.entries@)
    }
}

impl Ledger {
    /// The program that the ledger hosts.
    pub closed spec fn spec_program_id(&self) -> Address {
        self.program_id
    }

    /// A ledger for one deployment of the program, with no account stored.
    pub fn new(program_id: Address) -> (ledger: Ledger)
        ensures
            ledger@ == Map::<Address, AccountView>::empty(),
            ledger.spec_program_id() == program_id,
    {
        Ledger { program_id, entries: Vec::new() }
    }

    /// The program that the ledger hosts.
    #[verifier::when_used_as_spec(spec_program_id)]
    pub fn program_id(&self) -> (id: Address)
        ensures
            id == self.spec_program_id(),
    {
        self.program_id
    }

    fn position(&self, key: &Address) -> (r: Option<usize>)
        ensures
            match r {
                Some(i) => is_last_match(self.entries@, *key, i as int),
                None => forall|j: int|
                    0 <= j < self.entries@.len() ==> self.entries@[j].key != *key,
            },
    {
        let mut i: usize = self.entries.len();
        while i > 0
            invariant
                i <= self.entries@.len(),
                forall|j: int| i <= j < self.entries@.len() ==> self.entries@[j].key != *key,
            decreases i,
        {
            i -= 1;
            if self.entries[i].key == *key {
                return Some(i);
            }
        }
        None
    }

    /// A copy of the account stored at `key`, if one is.
    pub fn get_account(&self, key: &Address) -> (r: Option<Account>)
        ensures
            match r {
                Some(account) => self@.contains_key(*key) && account@ == self@[*key],
                None => !self@.contains_key(*key),
            },
    {
        match self.position(key) {
            Some(i) => {
                proof {
                    lemma_map_at(self.entries@, *key, i as int);
                }
                Some(self.entries[i].account.duplicate())
            },
            None => {
                proof {
                    lemma_map_absent(self.entries@, *key);
                }
                None
            },
        }
    }

    /// Stores `account` at `key`, in place of what was there.
    pub fn set_account(&mut self, key: Address, account: Account)
        ensures
            final(self)@ == old(self)@.insert(key, account@),
            final(self).spec_program_id() == old(self).spec_program_id(),
    {
        let entry = Entry { key, account };
        match self.position(&key) {
            Some(i) => {
                proof {
                    lemma_map_update(self.entries@, i as int, entry);
                }
                self.entries[i] = entry;
            },
            None => {
                assert(self.entries@.push(entry).drop_last() =~= self.entries@);
                self.entries.push(entry);
            },
        }
    }

    /// The accounts that an instruction with the account list `metas` sees.
    pub fn load(&self, metas: &Vec<AccountMeta>) -> (infos: Vec<AccountInfo>)
        ensures
            infos_view(infos@) == loaded(self@, metas@),
    {
        let mut infos: Vec<AccountInfo> = Vec::new();
        let mut i: usize = 0;
        while i < metas.len()
            invariant
                i <= metas@.len(),
                infos@.len() == i,
                forall|j: int| 0 <= j < i ==> infos@[j]@ == loaded(self@, metas@)[j],
            decreases metas@.len() - i,
        {
            let meta = &metas[i];
            let account = match self.get_account(&meta.pubkey) {
                Some(account) => account,
                None => Account::vacant(),
            };
            infos.push(
                AccountInfo {
                    key: meta.pubkey,
                    is_signer: meta.is_signer,
                    is_writable: meta.is_writable,
                    account,
                },
            );
            i += 1;
        }
        infos
    }

    fn store_counter(&mut self, address: Address, counter: &CounterAccount)
        ensures
            final(self)@ == old(self)@.insert(
                address,
                counter_record(old(self).spec_program_id(), *counter),
            ),
            final(self).spec_program_id() == old(self).spec_program_id(),
    {
        let account = Account {
            owner: self.program_id,
            data: AccountData::Raw(counter.try_serialize()),
        };
        self.set_account(address, account);
    }

    fn store_holding(&mut self, address: Address, holding: TokenHolding)
        ensures
            final(self)@ == old(self)@.insert(address, holding_record(holding)),
            final(self).spec_program_id() == old(self).spec_program_id(),
    {
        let account = Account { owner: token_program_id(), data: AccountData::Holding(holding) };
        self.set_account(address, account);
    }

    /// Executes one instruction: reads it, validates the accounts it names, runs the
    /// handler, and stores what the handler changed. A rejection at any step leaves the
    /// ledger as it was.
    pub fn execute(&mut self, instruction: &Instruction) -> (r: Result<(), ProgramError>)
        ensures
            match executed(old(self).spec_program_id(), old(self)@, *instruction) {
                Ok(state) => r is Ok && final(self)@ == state,
                Err(e) => r == Err::<(), ProgramError>(e) && final(self)@ == old(self)@,
            },
            final(self).spec_program_id() == old(self).spec_program_id(),
    {
        if instruction.program_id != self.program_id {
            return Err(ProgramError::IncorrectProgramId);
        }
        let kind = InstructionKind::decode(instruction.data.as_slice())?;
        let accounts = self.load(&instruction.accounts);
        let program_id = self.program_id;
        match kind {
            InstructionKind::Initialize => {
                let ctx = Initialize::try_accounts(&program_id, &accounts)?;
                initialize(&ctx)
            },
            InstructionKind::InitializeCounter => {
                let mut ctx = Counter::try_accounts(&program_id, &accounts)?;
                initialize_counter(&mut ctx)?;
                self.store_counter(ctx.counter_address, &ctx.counter);
                Ok(())
            },
            InstructionKind::IncrementCounter => {
                let mut ctx = CounterOperation::try_accounts(&program_id, &accounts)?;
                increment_counter(&mut ctx)?;
                self.store_counter(ctx.counter_address, &ctx.counter);
                Ok(())
            },
            InstructionKind::DecrementCounter => {
                let mut ctx = CounterOperation::try_accounts(&program_id, &accounts)?;
                decrement_counter(&mut ctx)?;
                self.store_counter(ctx.counter_address, &ctx.counter);
                Ok(())
            },
            InstructionKind::InitTokenAccount => {
                let ctx = InitTokenAccount::try_accounts(&program_id, &accounts)?;
                init_token_account(&ctx)?;
                self.store_holding(ctx.token_account.address, ctx.token_account.holding);
                Ok(())
            },
            InstructionKind::TransferTokens { amount } => {
                let mut ctx = TransferTokens::try_accounts(&program_id, &accounts)?;
                transfer_tokens(&mut ctx, amount)?;
                self.store_holding(ctx.to_token_account.address, ctx.to_token_account.holding);
                self.store_holding(ctx.from_token_account.address, ctx.from_token_account.holding);
                Ok(())
            },
        }
    }
}

} // verus!
