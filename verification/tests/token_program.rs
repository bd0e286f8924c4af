use anchor_lang::solana_program::account_info::AccountInfo;
use anchor_lang::solana_program::program_error::ProgramError as HostError;
use anchor_lang::solana_program::program_option::COption;
use anchor_lang::solana_program::program_pack::Pack;
use anchor_lang::solana_program::pubkey::Pubkey;
use anchor_spl::token::spl_token;
use anchor_spl::token::spl_token::error::TokenError as HostTokenError;
use anchor_spl::token::spl_token::processor::Processor;
use anchor_spl::token::spl_token::state::{Account as HostAccount, AccountState};
use litesvm_exp::address::{token_program_id, Address};
use litesvm_exp::error::TokenError;
use litesvm_exp::token::{invoke, TokenHolding, TransferCall};

fn pubkey(address: &Address) -> Pubkey {
    Pubkey::new_from_array(address.to_bytes())
}

fn key(n: u8) -> Address {
    Address::new([n; 32])
}

fn pack(holding: &TokenHolding) -> Vec<u8> {
    let account = HostAccount {
        mint: pubkey(&holding.mint),
        owner: pubkey(&holding.owner),
        amount: holding.quantity,
        delegate: COption::None,
        state: if holding.frozen { AccountState::Frozen } else { AccountState::Initialized },
        is_native: COption::None,
        delegated_amount: 0,
        close_authority: COption::None,
    };
    let mut data = vec![0; HostAccount::LEN];
    HostAccount::pack(account, &mut data).unwrap();
    data
}

fn unpack(data: &[u8]) -> TokenHolding {
    let account = HostAccount::unpack(data).unwrap();
    TokenHolding {
        owner: Address::new(account.owner.to_bytes()),
        mint: Address::new(account.mint.to_bytes()),
        quantity: account.amount,
        frozen: account.state == AccountState::Frozen,
    }
}

fn host_error(error: TokenError) -> HostError {
    match error {
        TokenError::AccountFrozen => HostTokenError::AccountFrozen.into(),
        TokenError::InsufficientFunds => HostTokenError::InsufficientFunds.into(),
        TokenError::MintMismatch => HostTokenError::MintMismatch.into(),
        TokenError::OwnerMismatch => HostTokenError::OwnerMismatch.into(),
        TokenError::Overflow => HostTokenError::Overflow.into(),
    }
}

/// Runs the transfer in the token program itself, on the stored form of the holdings.
fn on_token_program(
    call: &TransferCall,
    source: &TokenHolding,
    destination: &TokenHolding,
) -> (Result<(), HostError>, TokenHolding, TokenHolding) {
    let program = spl_token::ID;
    let wallets = Pubkey::default();
    let (source_key, destination_key, authority_key) =
        (pubkey(&call.source), pubkey(&call.destination), pubkey(&call.authority));
    let instruction = spl_token::instruction::transfer(
        &program,
        &source_key,
        &destination_key,
        &authority_key,
        &[],
        call.amount,
    )
    .unwrap();
    let (mut source_data, mut destination_data, mut authority_data) =
        (pack(source), pack(destination), vec![]);
    let (mut source_funds, mut destination_funds, mut authority_funds) = (1u64, 1u64, 1u64);
    let result = {
        let source_info = AccountInfo::new(
            &source_key,
            false,
            true,
            &mut source_funds,
            &mut source_data,
            &program,
            false,
            0,
        );
        let destination_info = if call.source == call.destination {
            source_info.clone()
        } else {
            AccountInfo::new(
                &destination_key,
                false,
                true,
                &mut destination_funds,
                &mut destination_data,
                &program,
                false,
                0,
            )
        };
        let authority_info = AccountInfo::new(
            &authority_key,
            true,
            false,
            &mut authority_funds,
            &mut authority_data,
            &wallets,
            false,
            0,
        );
        Processor::process(&program, &[source_info, destination_info, authority_info], &instruction.data)
    };
    (result, unpack(&source_data), unpack(&destination_data))
}

fn agree(call: TransferCall, source: TokenHolding, destination: TokenHolding) {
    let (expected, expected_source, expected_destination) =
        on_token_program(&call, &source, &destination);
    let (mut actual_source, mut actual_destination) = (source, destination);
    let actual = invoke(&call, &mut actual_source, &mut actual_destination);
    assert_eq!(actual.map_err(host_error), expected, "{:?} {:?} {:?}", call, source, destination);
    assert_eq!(actual_source, expected_source, "{:?} {:?} {:?}", call, source, destination);
    if call.source != call.destination {
        assert_eq!(actual_destination, expected_destination, "{:?} {:?}", call, destination);
    }
}

#[test]
fn transfer_agrees_with_the_token_program() {
    let quantities = [0u64, 1, 10, 1_000_000_000, u64::MAX - 1, u64::MAX];
    for source_quantity in quantities {
        for destination_quantity in quantities {
            for amount in [0u64, 1, 10, 11, 500_000_000, u64::MAX] {
                for (frozen_source, frozen_destination, same_mint, owner_asks) in [
                    (false, false, true, true),
                    (true, false, true, true),
                    (false, true, true, true),
                    (false, false, false, true),
                    (false, false, true, false),
                    (true, true, false, false),
                    (false, false, false, false),
                ] {
                    let source = TokenHolding {
                        owner: key(1),
                        mint: key(3),
                        quantity: source_quantity,
                        frozen: frozen_source,
                    };
                    let destination = TokenHolding {
                        owner: key(2),
                        mint: if same_mint { key(3) } else { key(4) },
                        quantity: destination_quantity,
                        frozen: frozen_destination,
                    };
                    let call = TransferCall {
                        program: token_program_id(),
                        source: key(11),
                        destination: key(12),
                        authority: if owner_asks { key(1) } else { key(2) },
                        amount,
                    };
                    agree(call, source, destination);
                }
            }
        }
    }
}

#[test]
fn transfer_to_the_same_account_agrees_with_the_token_program() {
    for quantity in [0u64, 1, 10, u64::MAX] {
        for amount in [0u64, 1, 10, 11, u64::MAX] {
            for (frozen, owner_asks) in [(false, true), (true, true), (false, false)] {
                let holding =
                    TokenHolding { owner: key(1), mint: key(3), quantity, frozen };
                let call = TransferCall {
                    program: token_program_id(),
                    source: key(11),
                    destination: key(11),
                    authority: if owner_asks { key(1) } else { key(2) },
                    amount,
                };
                agree(call, holding, holding);
            }
        }
    }
}
