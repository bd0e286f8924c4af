use vstd::prelude::*;

use crate::account::{infos_view, AccountData, AccountDataView, AccountInfo, AccountInfoView};
use crate::address::{
    associated_token_program_id, counter_address, counter_seed, derived, derived_holding,
    holding_address, spec_associated_token_program_id, spec_system_program_id,
    spec_token_program_id, system_program_id, token_program_id, Address,
};
use crate::error::ProgramError;
use crate::state::CounterAccount;
use crate::token::{TokenAccount, TokenHolding};

verus! {

/// The accounts of the greeting: none.
#[derive(Clone, Copy, Debug, PartialEq, Eq)]
pub struct Initialize {}

/// The validated accounts of create-counter.
#[derive(Clone, Copy, Debug, PartialEq, Eq)]
pub struct Counter {
    /// The wallet that signed and pays for the new account.
    pub signer: Address,
    /// The derived address of the counter account.
    pub counter_address: Address,
    /// The bump that goes with the address.
    pub bump: u8,
    /// The counter as the handler leaves it.
    pub counter: CounterAccount,
}

/// The validated accounts of increment-counter and decrement-counter.
#[derive(Clone, Copy, Debug, PartialEq, Eq)]
pub struct CounterOperation {
    /// The wallet that signed.
    pub signer: Address,
    /// The derived address of the counter account.
    pub counter_address: Address,
    /// The bump that goes with the address.
    pub bump: u8,
    /// The counter as stored, and then as the handler leaves it.
    pub counter: CounterAccount,
}

/// The validated accounts of create-token-holding.
#[derive(Clone, Copy, Debug, PartialEq, Eq)]
pub struct InitTokenAccount {
    /// The wallet that signed; the holding is its own.
    pub signer: Address,
    /// The asset type.
    pub mint: Address,
    /// The holding account: as stored where it exists, fresh where it does not.
    pub token_account: TokenAccount,
}

/// The validated accounts of transfer-tokens.
#[derive(Clone, Copy, Debug, PartialEq, Eq)]
pub struct TransferTokens {
    /// The wallet that signed; the transfer is on its authority.
    pub from: Address,
    /// The wallet that receives.
    pub to: Address,
    /// The asset type.
    pub mint: Address,
    /// The holding account of `from`.
    pub from_token_account: TokenAccount,
    /// The holding account of `to`: as stored where it exists, fresh where it does not.
    pub to_token_account: TokenAccount,
}

/// Why `info` cannot serve as the asset-type descriptor, if it cannot.
pub open spec fn mint_refusal(info: AccountInfoView) -> Option<ProgramError> {
    if info.account.is_uninitialized() {
        Some(ProgramError::NotInitialized)
    } else if info.account.owner != spec_token_program_id() {
        Some(ProgramError::WrongOwner)
    } else if !(info.account.data is Mint) {
        Some(ProgramError::InvalidAccountData)
    } else {
        None
    }
}

/// Why `info` holds no holding of the token-accounting program, if it holds none.
pub open spec fn holding_refusal(info: AccountInfoView) -> Option<ProgramError> {
    if info.account.is_uninitialized() {
        Some(ProgramError::NotInitialized)
    } else if info.account.owner != spec_token_program_id() {
        Some(ProgramError::WrongOwner)
    } else if !(info.account.data is Holding) {
        Some(ProgramError::InvalidAccountData)
    } else {
        None
    }
}

/// The holding that `info` holds, where `holding_refusal` finds nothing wrong.
pub open spec fn holding_value(info: AccountInfoView) -> TokenHolding {
    info.account.data->Holding_0
}

/// Why `info` cannot serve as the holding of `authority` for `mint` that is created if
/// absent, if it cannot. An account that was never created can always serve.
pub open spec fn holding_if_needed_refusal(
    info: AccountInfoView,
    authority: Address,
    mint: Address,
) -> Option<ProgramError> {
    if info.account.is_uninitialized() {
        None
    } else if holding_refusal(info) is Some {
        holding_refusal(info)
    } else if holding_value(info).mint != mint {
        Some(ProgramError::AssetMismatch)
    } else if holding_value(info).owner != authority {
        Some(ProgramError::AuthorityMismatch)
    } else {
        None
    }
}

/// The holding of `authority` for `mint` at `info`: the stored one, or a fresh one where
/// the account was never created.
pub open spec fn holding_if_needed_value(
    info: AccountInfoView,
    authority: Address,
    mint: Address,
) -> TokenHolding {
    if info.account.is_uninitialized() {
        TokenHolding::spec_empty(authority, mint)
    } else {
        holding_value(info)
    }
}

/// Why the three program accounts are not the system allocator, the token-accounting
/// program and the associated-holding-account program, if they are not.
pub open spec fn programs_refusal(
    system: AccountInfoView,
    token: AccountInfoView,
    associated: AccountInfoView,
) -> Option<ProgramError> {
    if system.key != spec_system_program_id() || token.key != spec_token_program_id()
        || associated.key != spec_associated_token_program_id() {
        Some(ProgramError::InvalidProgramId)
    } else {
        None
    }
}

/// Why `info` holds no counter account of `program_id`, if it holds none.
pub open spec fn counter_refusal(
    program_id: Address,
    info: AccountInfoView,
) -> Option<ProgramError> {
    if info.account.is_uninitialized() {
        Some(ProgramError::NotInitialized)
    } else if info.account.owner != program_id {
        Some(ProgramError::WrongOwner)
    } else {
        match info.account.data {
            AccountDataView::Raw(bytes) => match CounterAccount::decoding(bytes) {
                Ok(_) => None,
                Err(e) => Some(e),
            },
            _ => Some(ProgramError::InvalidAccountData),
        }
    }
}

/// The counter account that `info` holds, where `counter_refusal` finds nothing wrong.
pub open spec fn counter_value(info: AccountInfoView) -> CounterAccount {
    CounterAccount::decoding(info.account.data->Raw_0)->Ok_0
}

fn check_mint(info: &AccountInfo) -> (r: Option<ProgramError>)
    ensures
        r == mint_refusal(info@),
{
    if info.account.is_uninitialized() {
        return Some(ProgramError::NotInitialized);
    }
    if info.account.owner != token_program_id() {
        return Some(ProgramError::WrongOwner);
    }
    match &info.account.data {
        AccountData::Mint => None,
        _ => Some(ProgramError::InvalidAccountData),
    }
}

fn load_holding(info: &AccountInfo) -> (r: Result<TokenHolding, ProgramError>)
    ensures
        r == match holding_refusal(info@) {
            Some(e) => Err::<TokenHolding, ProgramError>(e),
            None => Ok(holding_value(info@)),
        },
{
    if info.account.is_uninitialized() {
        return Err(ProgramError::NotInitialized);
    }
    if info.account.owner != token_program_id() {
        return Err(ProgramError::WrongOwner);
    }
    match &info.account.data {
        AccountData::Holding(holding) => Ok(*holding),
        _ => Err(ProgramError::InvalidAccountData),
    }
}

fn load_holding_if_needed(
    info: &AccountInfo,
    authority: &Address,
    mint: &Address,
) -> (r: Result<TokenHolding, ProgramError>)
    ensures
        r == match holding_if_needed_refusal(info@, *authority, *mint) {
            Some(e) => Err::<TokenHolding, ProgramError>(e),
            None => Ok(holding_if_needed_value(info@, *authority, *mint)),
        },
{
    if info.account.is_uninitialized() {
        return Ok(TokenHolding::empty(*authority, *mint));
    }
    let holding = load_holding(info)?;
    if holding.mint != *mint {
        return Err(ProgramError::AssetMismatch);
    }
    if holding.owner != *authority {
        return Err(ProgramError::AuthorityMismatch);
    }
    Ok(holding)
}

fn check_programs(
    system: &AccountInfo,
    token: &AccountInfo,
    associated: &AccountInfo,
) -> (r: Option<ProgramError>)
    ensures
        r == programs_refusal(system@, token@, associated@),
{
    if system.key != system_program_id() || token.key != token_program_id() || associated.key
        != associated_token_program_id() {
        Some(ProgramError::InvalidProgramId)
    } else {
        None
    }
}

fn load_counter(
    program_id: &Address,
    info: &AccountInfo,
) -> (r: Result<CounterAccount, ProgramError>)
    ensures
        r == match counter_refusal(*program_id, info@) {
            Some(e) => Err::<CounterAccount, ProgramError>(e),
            None => Ok(counter_value(info@)),
        },
{
    if info.account.is_uninitialized() {
        return Err(ProgramError::NotInitialized);
    }
    if info.account.owner != *program_id {
        return Err(ProgramError::WrongOwner);
    }
    match &info.account.data {
        AccountData::Raw(bytes) => CounterAccount::try_deserialize(bytes.as_slice()),
        _ => Err(ProgramError::InvalidAccountData),
    }
}

impl Initialize {
    /// The greeting names no account, so every account list is accepted.
    pub fn try_accounts(
        _program_id: &Address,
        _accounts: &Vec<AccountInfo>,
    ) -> (r: Result<Initialize, ProgramError>)
        ensures
            r == Ok::<Initialize, ProgramError>(Initialize {  }),
    {
        Ok(Initialize {  })
    }
}

impl Counter {
    /// The first check that create-counter fails on the account list, in the order in
    /// which they are made: the signer has signed; the third account is the system
    /// allocator; the second is at the derived address, was never created, and is
    /// writable; the signer is writable.
    pub open spec fn refusal(
        counter_address: Address,
        accounts: Seq<AccountInfoView>,
    ) -> Option<ProgramError> {
        if accounts.len() < 3 {
            Some(ProgramError::NotEnoughAccounts)
        } else if !accounts[0].is_signer {
            Some(ProgramError::MissingSignature)
        } else if accounts[2].key != spec_system_program_id() {
            Some(ProgramError::InvalidProgramId)
        } else if accounts[1].key != counter_address {
            Some(ProgramError::AddressMismatch)
        } else if !accounts[1].account.is_uninitialized() {
            Some(ProgramError::AlreadyInitialized)
        } else if !accounts[1].is_writable || !accounts[0].is_writable {
            Some(ProgramError::NotWritable)
        } else {
            None
        }
    }

    /// What validation of create-counter returns, given the derived address and its bump.
    pub open spec fn validated(
        counter_address: Address,
        bump: u8,
        accounts: Seq<AccountInfoView>,
    ) -> Result<Counter, ProgramError> {
        match Counter::refusal(counter_address, accounts) {
            Some(e) => Err(e),
            None => Ok(
                Counter {
                    signer: accounts[0].key,
                    counter_address,
                    bump,
                    counter: CounterAccount { count: 0 },
                },
            ),
        }
    }

    /// Validates the accounts of create-counter against the derived address of the
    /// counter account. Reads only.
    pub fn validate(
        counter_address: &Address,
        bump: u8,
        accounts: &Vec<AccountInfo>,
    ) -> (r: Result<Counter, ProgramError>)
        ensures
            r == Counter::validated(*counter_address, bump, infos_view(accounts@)),
    {
        if accounts.len() < 3 {
            return Err(ProgramError::NotEnoughAccounts);
        }
        let signer = &accounts[0];
        let counter = &accounts[1];
        if !signer.is_signer {
            return Err(ProgramError::MissingSignature);
        }
        if accounts[2].key != system_program_id() {
            return Err(ProgramError::InvalidProgramId);
        }
        if counter.key != *counter_address {
            return Err(ProgramError::AddressMismatch);
        }
        if !counter.account.is_uninitialized() {
            return Err(ProgramError::AlreadyInitialized);
        }
        if !counter.is_writable || !signer.is_writable {
            return Err(ProgramError::NotWritable);
        }
        Ok(
            Counter {
                signer: signer.key,
                counter_address: *counter_address,
                bump,
                counter: CounterAccount { count: 0 },
            },
        )
    }

    /// What create-counter makes of its accounts under `program_id`: the derivation of
    /// the counter address comes first, validation against it second.
    pub open spec fn accepted(
        program_id: Address,
        accounts: Seq<AccountInfoView>,
    ) -> Result<Counter, ProgramError> {
        match derived(counter_seed(), program_id) {
            Some((address, bump)) => Counter::validated(address, bump, accounts),
            None => Err(ProgramError::DerivationFailed),
        }
    }

    /// Derives the address of the counter account of `program_id` and validates the
    /// accounts of create-counter against it.
    pub fn try_accounts(
        program_id: &Address,
        accounts: &Vec<AccountInfo>,
    ) -> (r: Result<Counter, ProgramError>)
        ensures
            r == Counter::accepted(*program_id, infos_view(accounts@)),
    {
        let (address, bump) = counter_address(program_id)?;
        Counter::validate(&address, bump, accounts)
    }
}

impl CounterOperation {
    /// The first check that increment-counter and decrement-counter fail on the account
    /// list, in the order in which they are made: the signer has signed; the second
    /// account holds a counter account of this program; the signer is writable; the
    /// second account is at the derived address and is writable.
    pub open spec fn refusal(
        program_id: Address,
        counter_address: Address,
        accounts: Seq<AccountInfoView>,
    ) -> Option<ProgramError> {
        if accounts.len() < 2 {
            Some(ProgramError::NotEnoughAccounts)
        } else if !accounts[0].is_signer {
            Some(ProgramError::MissingSignature)
        } else if counter_refusal(program_id, accounts[1]) is Some {
            counter_refusal(program_id, accounts[1])
        } else if !accounts[0].is_writable {
            Some(ProgramError::NotWritable)
        } else if accounts[1].key != counter_address {
            Some(ProgramError::AddressMismatch)
        } else if !accounts[1].is_writable {
            Some(ProgramError::NotWritable)
        } else {
            None
        }
    }

    /// What validation of a counter operation returns, given the derived address and its
    /// bump.
    pub open spec fn validated(
        program_id: Address,
        counter_address: Address,
        bump: u8,
        accounts: Seq<AccountInfoView>,
    ) -> Result<CounterOperation, ProgramError> {
        match CounterOperation::refusal(program_id, counter_address, accounts) {
            Some(e) => Err(e),
            None => Ok(
                CounterOperation {
                    signer: accounts[0].key,
                    counter_address,
                    bump,
                    counter: counter_value(accounts[1]),
                },
            ),
        }
    }

    /// Validates the accounts of a counter operation against the derived address of the
    /// counter account. Reads only.
    pub fn validate(
        program_id: &Address,
        counter_address: &Address,
        bump: u8,
        accounts: &Vec<AccountInfo>,
    ) -> (r: Result<CounterOperation, ProgramError>)
        ensures
            r == CounterOperation::validated(
                *program_id,
                *counter_address,
                bump,
                infos_view(accounts@),
            ),
    {
        if accounts.len() < 2 {
            return Err(ProgramError::NotEnoughAccounts);
        }
        let signer = &accounts[0];
        let counter = &accounts[1];
        if !signer.is_signer {
            return Err(ProgramError::MissingSignature);
        }
        let state = load_counter(program_id, counter)?;
        if !signer.is_writable {
            return Err(ProgramError::NotWritable);
        }
        if counter.key != *counter_address {
            return Err(ProgramError::AddressMismatch);
        }
        if !counter.is_writable {
            return Err(ProgramError::NotWritable);
        }
        Ok(
            CounterOperation {
                signer: signer.key,
                counter_address: *counter_address,
                bump,
                counter: state,
            },
        )
    }

    /// What a counter operation makes of its accounts under `program_id`: the
    /// derivation of the counter address comes first, validation against it second.
    pub open spec fn accepted(
        program_id: Address,
        accounts: Seq<AccountInfoView>,
    ) -> Result<CounterOperation, ProgramError> {
        match derived(counter_seed(), program_id) {
            Some((address, bump)) => CounterOperation::validated(
                program_id,
                address,
                bump,
                accounts,
            ),
            None => Err(ProgramError::DerivationFailed),
        }
    }

    /// Derives the address of the counter account of `program_id` and validates the
    /// accounts of a counter operation against it.
    pub fn try_accounts(
        program_id: &Address,
        accounts: &Vec<AccountInfo>,
    ) -> (r: Result<CounterOperation, ProgramError>)
        ensures
            r == CounterOperation::accepted(*program_id, infos_view(accounts@)),
    {
        let (address, bump) = counter_address(program_id)?;
        CounterOperation::validate(program_id, &address, bump, accounts)
    }
}

impl InitTokenAccount {
    /// The first check that create-token-holding fails on the account list, in the order
    /// in which they are made: the signer has signed; the second account is an
    /// asset-type descriptor; the last three are the expected programs; the third
    /// account was never created, or holds a holding of the signer for the asset type;
    /// it is at the derived address and is writable; the signer is writable.
    pub open spec fn refusal(
        holding_address: Address,
        accounts: Seq<AccountInfoView>,
    ) -> Option<ProgramError> {
        if accounts.len() < 6 {
            Some(ProgramError::NotEnoughAccounts)
        } else if !accounts[0].is_signer {
            Some(ProgramError::MissingSignature)
        } else if mint_refusal(accounts[1]) is Some {
            mint_refusal(accounts[1])
        } else if programs_refusal(accounts[3], accounts[4], accounts[5]) is Some {
            programs_refusal(accounts[3], accounts[4], accounts[5])
        } else if holding_if_needed_refusal(accounts[2], accounts[0].key, accounts[1].key) is Some {
            holding_if_needed_refusal(accounts[2], accounts[0].key, accounts[1].key)
        } else if accounts[2].key != holding_address {
            Some(ProgramError::AddressMismatch)
        } else if !accounts[2].is_writable || !accounts[0].is_writable {
            Some(ProgramError::NotWritable)
        } else {
            None
        }
    }

    /// What validation of create-token-holding returns, given the derived address of the
    /// holding account.
    pub open spec fn validated(
        holding_address: Address,
        accounts: Seq<AccountInfoView>,
    ) -> Result<InitTokenAccount, ProgramError> {
        match InitTokenAccount::refusal(holding_address, accounts) {
            Some(e) => Err(e),
            None => Ok(
                InitTokenAccount {
                    signer: accounts[0].key,
                    mint: accounts[1].key,
                    token_account: TokenAccount {
                        address: holding_address,
                        holding: holding_if_needed_value(
                            accounts[2],
                            accounts[0].key,
                            accounts[1].key,
                        ),
                    },
                },
            ),
        }
    }

    /// Validates the accounts of create-token-holding against the derived address of the
    /// holding account. Reads only: a holding that does not exist yet is handed back
    /// fresh, and stored by whoever commits the instruction.
    pub fn validate(
        holding_address: &Address,
        accounts: &Vec<AccountInfo>,
    ) -> (r: Result<InitTokenAccount, ProgramError>)
        ensures
            r == InitTokenAccount::validated(*holding_address, infos_view(accounts@)),
    {
        if accounts.len() < 6 {
            return Err(ProgramError::NotEnoughAccounts);
        }
        let signer = &accounts[0];
        let mint = &accounts[1];
        let token_account = &accounts[2];
        if !signer.is_signer {
            return Err(ProgramError::MissingSignature);
        }
        if let Some(e) = check_mint(mint) {
            return Err(e);
        }
        if let Some(e) = check_programs(&accounts[3], &accounts[4], &accounts[5]) {
            return Err(e);
        }
        let holding = load_holding_if_needed(token_account, &signer.key, &mint.key)?;
        if token_account.key != *holding_address {
            return Err(ProgramError::AddressMismatch);
        }
        if !token_account.is_writable || !signer.is_writable {
            return Err(ProgramError::NotWritable);
        }
        Ok(
            InitTokenAccount {
                signer: signer.key,
                mint: mint.key,
                token_account: TokenAccount { address: *holding_address, holding },
            },
        )
    }

    /// What create-token-holding makes of its accounts: once there are enough of them,
    /// the derivation of the holding address comes first, validation against it second.
    pub open spec fn accepted(
        accounts: Seq<AccountInfoView>,
    ) -> Result<InitTokenAccount, ProgramError> {
        if accounts.len() < 6 {
            Err(ProgramError::NotEnoughAccounts)
        } else {
            match derived_holding(accounts[0].key, accounts[1].key) {
                Some(address) => InitTokenAccount::validated(address, accounts),
                None => Err(ProgramError::DerivationFailed),
            }
        }
    }

    /// Derives the address of the signer's holding account for the asset type and
    /// validates the accounts of create-token-holding against it.
    pub fn try_accounts(
        _program_id: &Address,
        accounts: &Vec<AccountInfo>,
    ) -> (r: Result<InitTokenAccount, ProgramError>)
        ensures
            r == InitTokenAccount::accepted(infos_view(accounts@)),
    {
        if accounts.len() < 6 {
            return Err(ProgramError::NotEnoughAccounts);
        }
        let address = holding_address(&accounts[0].key, &accounts[1].key)?;
        InitTokenAccount::validate(&address, accounts)
    }
}

impl TransferTokens {
    /// The first check that transfer-tokens fails on the account list, in the order in
    /// which they are made: the sender has signed; the third account is an asset-type
    /// descriptor; the fourth holds a holding; the last three are the expected programs;
    /// the fifth was never created, or holds a holding of the receiver for the asset
    /// type; it is at its derived address and is writable; the sender is writable; the
    /// fourth account belongs to the sender, is at its derived address and is writable.
    pub open spec fn refusal(
        source_address: Address,
        destination_address: Address,
        accounts: Seq<AccountInfoView>,
    ) -> Option<ProgramError> {
        if accounts.len() < 8 {
            Some(ProgramError::NotEnoughAccounts)
        } else if !accounts[0].is_signer {
            Some(ProgramError::MissingSignature)
        } else if mint_refusal(accounts[2]) is Some {
            mint_refusal(accounts[2])
        } else if holding_refusal(accounts[3]) is Some {
            holding_refusal(accounts[3])
        } else if programs_refusal(accounts[5], accounts[6], accounts[7]) is Some {
            programs_refusal(accounts[5], accounts[6], accounts[7])
        } else if holding_if_needed_refusal(accounts[4], accounts[1].key, accounts[2].key) is Some {
            holding_if_needed_refusal(accounts[4], accounts[1].key, accounts[2].key)
        } else if accounts[4].key != destination_address {
            Some(ProgramError::AddressMismatch)
        } else if !accounts[4].is_writable || !accounts[0].is_writable {
            Some(ProgramError::NotWritable)
        } else if holding_value(accounts[3]).owner != accounts[0].key {
            Some(ProgramError::AuthorityMismatch)
        } else if accounts[3].key != source_address {
            Some(ProgramError::AddressMismatch)
        } else if !accounts[3].is_writable {
            Some(ProgramError::NotWritable)
        } else {
            None
        }
    }

    /// What validation of transfer-tokens returns, given the derived addresses of the
    /// two holding accounts.
    pub open spec fn validated(
        source_address: Address,
        destination_address: Address,
        accounts: Seq<AccountInfoView>,
    ) -> Result<TransferTokens, ProgramError> {
        match TransferTokens::refusal(source_address, destination_address, accounts) {
            Some(e) => Err(e),
            None => Ok(
                TransferTokens {
                    from: accounts[0].key,
                    to: accounts[1].key,
                    mint: accounts[2].key,
                    from_token_account: TokenAccount {
                        address: source_address,
                        holding: holding_value(accounts[3]),
                    },
                    to_token_account: TokenAccount {
                        address: destination_address,
                        holding: holding_if_needed_value(
                            accounts[4],
                            accounts[1].key,
                            accounts[2].key,
                        ),
                    },
                },
            ),
        }
    }

    /// Validates the accounts of transfer-tokens against the derived addresses of the
    /// two holding accounts. Reads only: a destination holding that does not exist yet
    /// is handed back fresh, and stored by whoever commits the instruction.
    pub fn validate(
        source_address: &Address,
        destination_address: &Address,
        accounts: &Vec<AccountInfo>,
    ) -> (r: Result<TransferTokens, ProgramError>)
        ensures
            r == TransferTokens::validated(
                *source_address,
                *destination_address,
                infos_view(accounts@),
            ),
    {
        if accounts.len() < 8 {
            return Err(ProgramError::NotEnoughAccounts);
        }
        let from = &accounts[0];
        let to = &accounts[1];
        let mint = &accounts[2];
        let source = &accounts[3];
        let destination = &accounts[4];
        if !from.is_signer {
            return Err(ProgramError::MissingSignature);
        }
        if let Some(e) = check_mint(mint) {
            return Err(e);
        }
        let source_holding = load_holding(source)?;
        if let Some(e) = check_programs(&accounts[5], &accounts[6], &accounts[7]) {
            return Err(e);
        }
        let destination_holding = load_holding_if_needed(destination, &to.key, &mint.key)?;
        if destination.key != *destination_address {
            return Err(ProgramError::AddressMismatch);
        }
        if !destination.is_writable || !from.is_writable {
            return Err(ProgramError::NotWritable);
        }
        if source_holding.owner != from.key {
            return Err(ProgramError::AuthorityMismatch);
        }
        if source.key != *source_address {
            return Err(ProgramError::AddressMismatch);
        }
        if !source.is_writable {
            return Err(ProgramError::NotWritable);
        }
        Ok(
            TransferTokens {
                from: from.key,
                to: to.key,
                mint: mint.key,
                from_token_account: TokenAccount {
                    address: *source_address,
                    holding: source_holding,
                },
                to_token_account: TokenAccount {
                    address: *destination_address,
                    holding: destination_holding,
                },
            },
        )
    }

    /// What transfer-tokens makes of its accounts: once there are enough of them, the
    /// derivation of the two holding addresses comes first, validation against them
    /// second.
    pub open spec fn accepted(
        accounts: Seq<AccountInfoView>,
    ) -> Result<TransferTokens, ProgramError> {
        if accounts.len() < 8 {
            Err(ProgramError::NotEnoughAccounts)
        } else {
            match (
                derived_holding(accounts[0].key, accounts[2].key),
                derived_holding(accounts[1].key, accounts[2].key),
            ) {
                (Some(source), Some(destination)) => TransferTokens::validated(
                    source,
                    destination,
                    accounts,
                ),
                _ => Err(ProgramError::DerivationFailed),
            }
        }
    }

    /// Derives the addresses of the two holding accounts and validates the accounts of
    /// transfer-tokens against them.
    pub fn try_accounts(
        _program_id: &Address,
        accounts: &Vec<AccountInfo>,
    ) -> (r: Result<TransferTokens, ProgramError>)
        ensures
            r == TransferTokens::accepted(infos_view(accounts@)),
    {
        if accounts.len() < 8 {
            return Err(ProgramError::NotEnoughAccounts);
        }
        let source = holding_address(&accounts[0].key, &accounts[2].key)?;
        let destination = holding_address(&accounts[1].key, &accounts[2].key)?;
        TransferTokens::validate(&source, &destination, accounts)
    }
}

} // verus!
