use litesvm_exp::address::{token_program_id, Address};
use litesvm_exp::error::{ProgramError, TokenError};
use litesvm_exp::handlers::build_transfer_call;
use litesvm_exp::token::{invoke, transfer, transfer_to_self, TokenAccount, TokenHolding, TransferCall};
use litesvm_exp::{InitTokenAccount, TransferTokens};

fn alice() -> Address {
    Address::new([1; 32])
}

fn bob() -> Address {
    Address::new([2; 32])
}

fn mint() -> Address {
    Address::new([3; 32])
}

fn holding(owner: Address, quantity: u64) -> TokenHolding {
    TokenHolding { owner, mint: mint(), quantity, frozen: false }
}

fn context(source: u64, destination: u64) -> TransferTokens {
    TransferTokens {
        from: alice(),
        to: bob(),
        mint: mint(),
        from_token_account: TokenAccount { address: Address::new([11; 32]), holding: holding(alice(), source) },
        to_token_account: TokenAccount { address: Address::new([12; 32]), holding: holding(bob(), destination) },
    }
}

#[test]
fn fresh_holding_is_empty() {
    assert_eq!(
        TokenHolding::empty(alice(), mint()),
        TokenHolding { owner: alice(), mint: mint(), quantity: 0, frozen: false }
    );
}

#[test]
fn transfer_moves_the_amount() {
    let mut source = holding(alice(), 1_000_000_000);
    let mut destination = holding(bob(), 0);
    assert_eq!(transfer(&mut source, &mut destination, &alice(), 500_000_000), Ok(()));
    assert_eq!(source, holding(alice(), 500_000_000));
    assert_eq!(destination, holding(bob(), 500_000_000));
}

#[test]
fn transfer_conserves_the_sum() {
    for (before_source, before_destination, amount) in
        [(10u64, 0u64, 0u64), (10, 5, 10), (1_000_000_000, 7, 1), (u64::MAX, 0, u64::MAX)]
    {
        let mut source = holding(alice(), before_source);
        let mut destination = holding(bob(), before_destination);
        assert_eq!(transfer(&mut source, &mut destination, &alice(), amount), Ok(()));
        assert_eq!(
            source.quantity as u128 + destination.quantity as u128,
            before_source as u128 + before_destination as u128
        );
        assert_eq!(destination.quantity, before_destination + amount);
        assert_eq!(source.quantity, before_source - amount);
    }
}

#[test]
fn overdraft_is_refused_and_changes_nothing() {
    let mut source = holding(alice(), 10);
    let mut destination = holding(bob(), 5);
    assert_eq!(
        transfer(&mut source, &mut destination, &alice(), 11),
        Err(TokenError::InsufficientFunds)
    );
    assert_eq!(source, holding(alice(), 10));
    assert_eq!(destination, holding(bob(), 5));
}

#[test]
fn frozen_holding_neither_sends_nor_receives() {
    let mut source = TokenHolding { frozen: true, ..holding(alice(), 10) };
    let mut destination = holding(bob(), 5);
    assert_eq!(transfer(&mut source, &mut destination, &alice(), 1), Err(TokenError::AccountFrozen));
    let mut source = holding(alice(), 10);
    let mut destination = TokenHolding { frozen: true, ..holding(bob(), 5) };
    assert_eq!(transfer(&mut source, &mut destination, &alice(), 1), Err(TokenError::AccountFrozen));
    assert_eq!(source.quantity, 10);
    assert_eq!(destination.quantity, 5);
    // a frozen holding is found before a missing balance
    let mut source = TokenHolding { frozen: true, ..holding(alice(), 0) };
    assert_eq!(transfer(&mut source, &mut destination, &alice(), 1), Err(TokenError::AccountFrozen));
}

#[test]
fn holdings_of_different_asset_types_do_not_mix() {
    let mut source = holding(alice(), 10);
    let mut destination = TokenHolding { mint: Address::new([4; 32]), ..holding(bob(), 5) };
    assert_eq!(transfer(&mut source, &mut destination, &alice(), 1), Err(TokenError::MintMismatch));
    assert_eq!(source.quantity, 10);
    assert_eq!(destination.quantity, 5);
}

#[test]
fn only_the_owner_transfers() {
    let mut source = holding(alice(), 10);
    let mut destination = holding(bob(), 5);
    assert_eq!(transfer(&mut source, &mut destination, &bob(), 1), Err(TokenError::OwnerMismatch));
    assert_eq!(source.quantity, 10);
    assert_eq!(destination.quantity, 5);
}

#[test]
fn destination_cannot_exceed_the_largest_quantity() {
    let mut source = holding(alice(), 10);
    let mut destination = holding(bob(), u64::MAX - 4);
    assert_eq!(transfer(&mut source, &mut destination, &alice(), 5), Err(TokenError::Overflow));
    assert_eq!(source.quantity, 10);
    assert_eq!(destination.quantity, u64::MAX - 4);
    assert_eq!(transfer(&mut source, &mut destination, &alice(), 4), Ok(()));
    assert_eq!(destination.quantity, u64::MAX);
}

#[test]
fn transfer_to_self_is_checked_and_moves_nothing() {
    let own = holding(alice(), 10);
    assert_eq!(transfer_to_self(&own, &alice(), 10), Ok(()));
    assert_eq!(transfer_to_self(&own, &alice(), 11), Err(TokenError::InsufficientFunds));
    assert_eq!(transfer_to_self(&own, &bob(), 1), Err(TokenError::OwnerMismatch));
    let frozen = TokenHolding { frozen: true, ..own };
    assert_eq!(transfer_to_self(&frozen, &alice(), 1), Err(TokenError::AccountFrozen));
}

#[test]
fn call_names_program_accounts_authority_and_amount() {
    let ctx = context(1_000_000_000, 0);
    assert_eq!(
        build_transfer_call(&ctx, 500_000_000),
        TransferCall {
            program: token_program_id(),
            source: Address::new([11; 32]),
            destination: Address::new([12; 32]),
            authority: alice(),
            amount: 500_000_000,
        }
    );
}

#[test]
fn call_on_one_account_moves_nothing() {
    let call = TransferCall {
        program: token_program_id(),
        source: Address::new([11; 32]),
        destination: Address::new([11; 32]),
        authority: alice(),
        amount: 4,
    };
    let mut source = holding(alice(), 10);
    let mut destination = holding(alice(), 10);
    assert_eq!(invoke(&call, &mut source, &mut destination), Ok(()));
    assert_eq!(source.quantity, 10);
    assert_eq!(destination.quantity, 10);
    let call = TransferCall { amount: 11, ..call };
    assert_eq!(invoke(&call, &mut source, &mut destination), Err(TokenError::InsufficientFunds));
}

#[test]
fn call_on_two_accounts_moves_the_amount() {
    let ctx = context(10, 1);
    let call = build_transfer_call(&ctx, 4);
    let mut source = ctx.from_token_account.holding;
    let mut destination = ctx.to_token_account.holding;
    assert_eq!(invoke(&call, &mut source, &mut destination), Ok(()));
    assert_eq!(source.quantity, 6);
    assert_eq!(destination.quantity, 5);
}

#[test]
fn transfer_tokens_moves_the_amount() {
    let mut ctx = context(1_000_000_000, 0);
    assert_eq!(litesvm_exp::transfer_tokens(&mut ctx, 500_000_000), Ok(()));
    assert_eq!(ctx, context(500_000_000, 500_000_000));
}

#[test]
fn transfer_tokens_passes_the_refusal_on() {
    let mut ctx = context(10, 0);
    assert_eq!(
        litesvm_exp::transfer_tokens(&mut ctx, 11),
        Err(ProgramError::Delegated(TokenError::InsufficientFunds))
    );
    assert_eq!(ctx, context(10, 0));
    let mut ctx = context(10, u64::MAX);
    assert_eq!(
        litesvm_exp::transfer_tokens(&mut ctx, 1),
        Err(ProgramError::Delegated(TokenError::Overflow))
    );
    assert_eq!(ctx, context(10, u64::MAX));
    let mut ctx = context(10, 0);
    ctx.from = bob();
    assert_eq!(
        litesvm_exp::transfer_tokens(&mut ctx, 1),
        Err(ProgramError::Delegated(TokenError::OwnerMismatch))
    );
}

#[test]
fn init_token_account_always_succeeds() {
    let ctx = InitTokenAccount {
        signer: alice(),
        mint: mint(),
        token_account: TokenAccount { address: Address::new([11; 32]), holding: holding(alice(), 0) },
    };
    assert_eq!(litesvm_exp::init_token_account(&ctx), Ok(()));
}
