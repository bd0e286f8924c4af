use vstd::prelude::*;

use crate::address::{spec_system_program_id, system_program_id, Address};
use crate::state::{all_zero, is_all_zero};
use crate::token::TokenHolding;

verus! {

/// What an account holds.
#[derive(Clone, Debug, PartialEq, Eq)]
pub enum AccountData {
    /// Plain bytes, laid out by the program that owns the account. An account that was
    /// never created holds none.
    Raw(Vec<u8>),
    /// A holding, kept by the token-accounting program.
    Holding(TokenHolding),
    /// An asset-type descriptor, kept by the token-accounting program.
    Mint,
}

/// `AccountData` as a mathematical value.
pub enum AccountDataView {
    Raw(Seq<u8>),
    Holding(TokenHolding),
    Mint,
}

impl View for AccountData {
    type V = AccountDataView;

    open spec fn view(&self) -> AccountDataView {
        match *self {
            AccountData::Raw(bytes) => AccountDataView::Raw(bytes@),
            AccountData::Holding(holding) => AccountDataView::Holding(holding),
            AccountData::Mint => AccountDataView::Mint,
        }
    }
}

/// An account as the ledger stores it: the program that owns it, and what it holds.
#[derive(Clone, Debug, PartialEq, Eq)]
pub struct Account {
    /// The ownership tag: only this program may change the account.
    pub owner: Address,
    pub data: AccountData,
}

/// `Account` as a mathematical value.
pub struct AccountView {
    pub owner: Address,
    pub data: AccountDataView,
}

impl View for Account {
    type V = AccountView;

    open spec fn view(&self) -> AccountView {
        AccountView { owner: self.owner, data: self.data@ }
    }
}

impl AccountView {
    /// The account at an address that nothing was ever stored at: the system allocator
    /// owns it and it holds no bytes.
    pub open spec fn vacant() -> AccountView {
        AccountView { owner: spec_system_program_id(), data: AccountDataView::Raw(Seq::empty()) }
    }

    /// An account that no program has claimed and nothing was written to.
    pub open spec fn is_uninitialized(self) -> bool {
        &&& self.owner == spec_system_program_id()
        &&& self.data matches AccountDataView::Raw(bytes)
        &&& all_zero(bytes)
    }
}

impl Account {
    /// The account at an address that nothing was ever stored at.
    pub fn vacant() -> (account: Account)
        ensures
            account@ == AccountView::vacant(),
    {
        Account { owner: system_program_id(), data: AccountData::Raw(Vec::new()) }
    }

    /// A copy of the account.
    pub fn duplicate(&self) -> (copy: Account)
        ensures
            copy@ == self@,
    {
        let data = match &self.data {
            AccountData::Raw(bytes) => AccountData::Raw(bytes.clone()),
            AccountData::Holding(holding) => AccountData::Holding(*holding),
            AccountData::Mint => AccountData::Mint,
        };
        Account { owner: self.owner, data }
    }

    /// Whether no program has claimed the account and nothing was written to it.
    pub fn is_uninitialized(&self) -> (r: bool)
        ensures
            r == self@.is_uninitialized(),
    {
        match &self.data {
            AccountData::Raw(bytes) => self.owner == system_program_id() && is_all_zero(
                bytes.as_slice(),
            ),
            _ => false,
        }
    }
}

/// One entry of an instruction's account list: the address, whether its owner signed the
/// transaction, and whether the instruction may write to it.
#[derive(Clone, Copy, Debug, PartialEq, Eq)]
pub struct AccountMeta {
    pub pubkey: Address,
    pub is_signer: bool,
    pub is_writable: bool,
}

impl AccountMeta {
    /// An entry for an account that the instruction may write to.
    pub fn new(pubkey: Address, is_signer: bool) -> (meta: AccountMeta)
        ensures
            meta == (AccountMeta { pubkey, is_signer, is_writable: true }),
    {
        AccountMeta { pubkey, is_signer, is_writable: true }
    }

    /// An entry for an account that the instruction only reads.
    pub fn new_readonly(pubkey: Address, is_signer: bool) -> (meta: AccountMeta)
        ensures
            meta == (AccountMeta { pubkey, is_signer, is_writable: false }),
    {
        AccountMeta { pubkey, is_signer, is_writable: false }
    }
}

/// An account as an instruction sees it: the entry of the account list, and the account
/// that the ledger holds at that address.
#[derive(Clone, Debug, PartialEq, Eq)]
pub struct AccountInfo {
    pub key: Address,
    pub is_signer: bool,
    pub is_writable: bool,
    pub account: Account,
}

/// `AccountInfo` as a mathematical value.
pub struct AccountInfoView {
    pub key: Address,
    pub is_signer: bool,
    pub is_writable: bool,
    pub account: AccountView,
}

impl View for AccountInfo {
    type V = AccountInfoView;

    open spec fn view(&self) -> AccountInfoView {
        AccountInfoView {
            key: self.key,
            is_signer: self.is_signer,
            is_writable: self.is_writable,
            account: self.account@,
        }
    }
}

/// The accounts of an instruction as mathematical values.
pub open spec fn infos_view(accounts: Seq<AccountInfo>) -> Seq<AccountInfoView> {
    Seq::new(accounts.len(), |i: int| accounts[i]@)
}

} // verus!
