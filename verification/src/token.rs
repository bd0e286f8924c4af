use vstd::prelude::*;

use crate::address::Address;
use crate::error::TokenError;

verus! {

/// What a holding account records: who owns it, which asset type it holds, and how much.
/// The record belongs to the token-accounting program; this program only reads it.
#[derive(Clone, Copy, Debug, PartialEq, Eq)]
pub struct TokenHolding {
    /// The wallet that may spend from the holding.
    pub owner: Address,
    /// The asset type.
    pub mint: Address,
    /// The quantity held.
    pub quantity: u64,
    /// A frozen holding neither sends nor receives.
    pub frozen: bool,
}

/// A holding account together with the address it lives at.
#[derive(Clone, Copy, Debug, PartialEq, Eq)]
pub struct TokenAccount {
    pub address: Address,
    pub holding: TokenHolding,
}

/// The descriptor of one delegated transfer: the program to call, the three accounts it
/// operates on, and the amount.
#[derive(Clone, Copy, Debug, PartialEq, Eq)]
pub struct TransferCall {
    /// The token-accounting program.
    pub program: Address,
    /// The holding account to take from.
    pub source: Address,
    /// The holding account to give to.
    pub destination: Address,
    /// The wallet that authorizes the transfer. It has signed the instruction.
    pub authority: Address,
    pub amount: u64,
}

impl TokenHolding {
    /// A fresh holding of `owner` for `mint`: empty and not frozen.
    pub open spec fn spec_empty(owner: Address, mint: Address) -> TokenHolding {
        TokenHolding { owner, mint, quantity: 0, frozen: false }
    }

    #[verifier::when_used_as_spec(spec_empty)]
    pub fn empty(owner: Address, mint: Address) -> (h: TokenHolding)
        ensures
            h == TokenHolding::spec_empty(owner, mint),
    {
        TokenHolding { owner, mint, quantity: 0, frozen: false }
    }

    /// The holding with `amount` taken out.
    pub open spec fn debited(self, amount: u64) -> TokenHolding
        recommends
            amount <= self.quantity,
    {
        TokenHolding { quantity: (self.quantity - amount) as u64, ..self }
    }

    /// The holding with `amount` put in.
    pub open spec fn credited(self, amount: u64) -> TokenHolding
        recommends
            self.quantity + amount <= u64::MAX,
    {
        TokenHolding { quantity: (self.quantity + amount) as u64, ..self }
    }
}

/// Why the token-accounting program refuses to take `amount` out of `source` on the word
/// of `authority`, if it does. The checks come in this order.
pub open spec fn source_refusal(
    source: TokenHolding,
    other_frozen: bool,
    other_mint: Address,
    authority: Address,
    amount: u64,
) -> Option<TokenError> {
    if source.frozen || other_frozen {
        Some(TokenError::AccountFrozen)
    } else if source.quantity < amount {
        Some(TokenError::InsufficientFunds)
    } else if source.mint != other_mint {
        Some(TokenError::MintMismatch)
    } else if source.owner != authority {
        Some(TokenError::OwnerMismatch)
    } else {
        None
    }
}

/// What a transfer between two different holding accounts does: the two holdings after
/// it, or the reason for which nothing moves.
pub open spec fn transfer_outcome(
    source: TokenHolding,
    destination: TokenHolding,
    authority: Address,
    amount: u64,
) -> Result<(TokenHolding, TokenHolding), TokenError> {
    match source_refusal(source, destination.frozen, destination.mint, authority, amount) {
        Some(e) => Err(e),
        None => if destination.quantity + amount > u64::MAX {
            Err(TokenError::Overflow)
        } else {
            Ok((source.debited(amount), destination.credited(amount)))
        },
    }
}

/// What a transfer from a holding account to itself does: it is checked like any other,
/// and moves nothing.
pub open spec fn self_transfer_outcome(
    holding: TokenHolding,
    authority: Address,
    amount: u64,
) -> Result<(), TokenError> {
    match source_refusal(holding, holding.frozen, holding.mint, authority, amount) {
        Some(e) => Err(e),
        None => Ok(()),
    }
}

fn check_source(
    source: &TokenHolding,
    other_frozen: bool,
    other_mint: &Address,
    authority: &Address,
    amount: u64,
) -> (r: Result<(), TokenError>)
    ensures
        r == match source_refusal(*source, other_frozen, *other_mint, *authority, amount) {
            Some(e) => Err::<(), TokenError>(e),
            None => Ok(()),
        },
{
    if source.frozen || other_frozen {
        Err(TokenError::AccountFrozen)
    } else if source.quantity < amount {
        Err(TokenError::InsufficientFunds)
    } else if source.mint != *other_mint {
        Err(TokenError::MintMismatch)
    } else if source.owner != *authority {
        Err(TokenError::OwnerMismatch)
    } else {
        Ok(())
    }
}

/// Moves `amount` from `source` to `destination`, two different holding accounts, as the
/// token-accounting program does. A refused transfer changes neither.
pub fn transfer(
    source: &mut TokenHolding,
    destination: &mut TokenHolding,
    authority: &Address,
    amount: u64,
) -> (r: Result<(), TokenError>)
    ensures
        match transfer_outcome(*old(source), *old(destination), *authority, amount) {
            Ok((s, d)) => r is Ok && *final(source) == s && *final(destination) == d,
            Err(e) => r == Err::<(), TokenError>(e) && *final(source) == *old(source)
                && *final(destination) == *old(destination),
        },
{
    match check_source(source, destination.frozen, &destination.mint, authority, amount) {
        Err(e) => Err(e),
        Ok(()) => {
            if destination.quantity > u64::MAX - amount {
                Err(TokenError::Overflow)
            } else {
                source.quantity = source.quantity - amount;
                destination.quantity = destination.quantity + amount;
                Ok(())
            }
        },
    }
}

/// Checks a transfer from a holding account to itself. Nothing moves either way.
pub fn transfer_to_self(
    holding: &TokenHolding,
    authority: &Address,
    amount: u64,
) -> (r: Result<(), TokenError>)
    ensures
        r == self_transfer_outcome(*holding, *authority, amount),
{
    check_source(holding, holding.frozen, &holding.mint, authority, amount)
}

/// What the call does to the holdings at its source and its destination, `source` and
/// `destination` being what the two accounts hold before it. Where the call names one
/// account as both, it is checked against `source` and moves nothing.
pub open spec fn call_outcome(
    call: TransferCall,
    source: TokenHolding,
    destination: TokenHolding,
) -> Result<(TokenHolding, TokenHolding), TokenError> {
    if call.source == call.destination {
        match self_transfer_outcome(source, call.authority, call.amount) {
            Ok(()) => Ok((source, destination)),
            Err(e) => Err(e),
        }
    } else {
        transfer_outcome(source, destination, call.authority, call.amount)
    }
}

/// Performs the call on the holdings at its source and its destination, as the
/// token-accounting program does. A refused call changes neither.
pub fn invoke(
    call: &TransferCall,
    source: &mut TokenHolding,
    destination: &mut TokenHolding,
) -> (r: Result<(), TokenError>)
    ensures
        match call_outcome(*call, *old(source), *old(destination)) {
            Ok((s, d)) => r is Ok && *final(source) == s && *final(destination) == d,
            Err(e) => r == Err::<(), TokenError>(e) && *final(source) == *old(source)
                && *final(destination) == *old(destination),
        },
{
    if call.source == call.destination {
        transfer_to_self(source, &call.authority, call.amount)
    } else {
        transfer(source, destination, &call.authority, call.amount)
    }
}

} // verus!
