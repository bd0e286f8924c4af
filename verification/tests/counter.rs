use litesvm_exp::address::Address;
use litesvm_exp::error::{ErrorCategory, ProgramError, TokenError};
use litesvm_exp::instruction::InstructionKind;
use litesvm_exp::state::{is_all_zero, COUNTER_SPACE};
use litesvm_exp::{Counter, CounterAccount, CounterOperation, Initialize};

fn operation(count: u64) -> CounterOperation {
    CounterOperation {
        signer: Address::new([1; 32]),
        counter_address: Address::new([2; 32]),
        bump: 255,
        counter: CounterAccount { count },
    }
}

#[test]
fn initialize_always_succeeds() {
    assert_eq!(litesvm_exp::initialize(&Initialize {}), Ok(()));
}

#[test]
fn initialize_counter_sets_zero() {
    let mut ctx = Counter {
        signer: Address::new([1; 32]),
        counter_address: Address::new([2; 32]),
        bump: 254,
        counter: CounterAccount { count: 77 },
    };
    assert_eq!(litesvm_exp::initialize_counter(&mut ctx), Ok(()));
    assert_eq!(ctx.counter.count, 0);
    assert_eq!(ctx.signer, Address::new([1; 32]));
    assert_eq!(ctx.counter_address, Address::new([2; 32]));
    assert_eq!(ctx.bump, 254);
}

#[test]
fn increment_adds_one() {
    let mut ctx = operation(41);
    assert_eq!(litesvm_exp::increment_counter(&mut ctx), Ok(()));
    assert_eq!(ctx, operation(42));
}

#[test]
fn decrement_takes_one() {
    let mut ctx = operation(42);
    assert_eq!(litesvm_exp::decrement_counter(&mut ctx), Ok(()));
    assert_eq!(ctx, operation(41));
}

#[test]
fn increment_then_decrement_round_trips() {
    for start in [0u64, 1, 500, u64::MAX - 1] {
        let mut ctx = operation(start);
        assert_eq!(litesvm_exp::increment_counter(&mut ctx), Ok(()));
        assert_eq!(ctx.counter.count, start + 1);
        assert_eq!(litesvm_exp::decrement_counter(&mut ctx), Ok(()));
        assert_eq!(ctx, operation(start));
    }
}

#[test]
fn decrement_at_zero_is_refused() {
    let mut ctx = operation(0);
    assert_eq!(litesvm_exp::decrement_counter(&mut ctx), Err(ProgramError::Underflow));
    assert_eq!(ctx, operation(0));
}

#[test]
fn increment_at_largest_count_is_refused() {
    let mut ctx = operation(u64::MAX);
    assert_eq!(litesvm_exp::increment_counter(&mut ctx), Err(ProgramError::Overflow));
    assert_eq!(ctx, operation(u64::MAX));
}

#[test]
fn many_increments_count_up_from_zero() {
    let mut ctx = operation(0);
    for n in 1..=1000u64 {
        assert_eq!(litesvm_exp::increment_counter(&mut ctx), Ok(()));
        assert_eq!(ctx.counter.count, n);
    }
}

#[test]
fn stored_counter_is_tag_then_count() {
    let stored = CounterAccount { count: 0x0102_0304_0506_0708 }.try_serialize();
    assert_eq!(stored.len(), COUNTER_SPACE);
    assert_eq!(stored, vec![164, 8, 153, 71, 8, 44, 93, 22, 8, 7, 6, 5, 4, 3, 2, 1]);
    assert_eq!(
        CounterAccount { count: 1 }.try_serialize(),
        vec![164, 8, 153, 71, 8, 44, 93, 22, 1, 0, 0, 0, 0, 0, 0, 0]
    );
}

#[test]
fn stored_counter_reads_back() {
    for count in [0u64, 1, 255, 256, 1_000_000_000, u64::MAX] {
        let stored = CounterAccount { count }.try_serialize();
        assert_eq!(CounterAccount::try_deserialize(&stored), Ok(CounterAccount { count }));
    }
}

#[test]
fn unwritten_bytes_are_not_initialized() {
    assert_eq!(CounterAccount::try_deserialize(&[]), Err(ProgramError::NotInitialized));
    assert_eq!(CounterAccount::try_deserialize(&[0; 16]), Err(ProgramError::NotInitialized));
    assert_eq!(CounterAccount::try_deserialize(&[0; 3]), Err(ProgramError::NotInitialized));
    assert!(is_all_zero(&[]));
    assert!(is_all_zero(&[0, 0]));
    assert!(!is_all_zero(&[0, 1]));
}

#[test]
fn foreign_bytes_are_invalid() {
    let mut stored = CounterAccount { count: 5 }.try_serialize();
    stored[0] ^= 1;
    assert_eq!(CounterAccount::try_deserialize(&stored), Err(ProgramError::InvalidAccountData));
    let mut stored = CounterAccount { count: 5 }.try_serialize();
    stored[7] = 0;
    assert_eq!(CounterAccount::try_deserialize(&stored), Err(ProgramError::InvalidAccountData));
    let mut long = CounterAccount { count: 5 }.try_serialize();
    long.push(0);
    assert_eq!(CounterAccount::try_deserialize(&long), Err(ProgramError::InvalidAccountData));
    let short = &CounterAccount { count: 5 }.try_serialize()[..15];
    assert_eq!(CounterAccount::try_deserialize(short), Err(ProgramError::InvalidAccountData));
}

#[test]
fn instruction_data_reads_back() {
    let kinds = [
        InstructionKind::Initialize,
        InstructionKind::InitializeCounter,
        InstructionKind::IncrementCounter,
        InstructionKind::DecrementCounter,
        InstructionKind::InitTokenAccount,
        InstructionKind::TransferTokens { amount: 0 },
        InstructionKind::TransferTokens { amount: 500_000_000 },
        InstructionKind::TransferTokens { amount: u64::MAX },
    ];
    for kind in kinds {
        assert_eq!(InstructionKind::decode(&kind.data()), Ok(kind));
    }
}

#[test]
fn transfer_data_is_tag_then_amount() {
    assert_eq!(
        InstructionKind::TransferTokens { amount: 500_000_000 }.data(),
        vec![54, 180, 238, 175, 74, 85, 126, 188, 0, 101, 205, 29, 0, 0, 0, 0]
    );
    assert_eq!(
        InstructionKind::IncrementCounter.data(),
        vec![16, 125, 2, 171, 73, 24, 207, 229]
    );
}

#[test]
fn unreadable_instruction_data_is_rejected() {
    assert_eq!(InstructionKind::decode(&[]), Err(ProgramError::UnknownInstruction));
    assert_eq!(InstructionKind::decode(&[16, 125, 2]), Err(ProgramError::UnknownInstruction));
    assert_eq!(InstructionKind::decode(&[9; 8]), Err(ProgramError::UnknownInstruction));
    let mut short = InstructionKind::TransferTokens { amount: 3 }.data();
    short.pop();
    assert_eq!(InstructionKind::decode(&short), Err(ProgramError::InvalidInstructionData));
}

#[test]
fn bytes_after_the_arguments_are_not_read() {
    let mut data = InstructionKind::DecrementCounter.data();
    data.push(9);
    assert_eq!(InstructionKind::decode(&data), Ok(InstructionKind::DecrementCounter));
    let mut data = InstructionKind::TransferTokens { amount: 3 }.data();
    data.push(9);
    assert_eq!(InstructionKind::decode(&data), Ok(InstructionKind::TransferTokens { amount: 3 }));
}

#[test]
fn every_rejection_has_its_category() {
    let cases = [
        (ProgramError::IncorrectProgramId, ErrorCategory::Request),
        (ProgramError::UnknownInstruction, ErrorCategory::Request),
        (ProgramError::InvalidInstructionData, ErrorCategory::Request),
        (ProgramError::NotEnoughAccounts, ErrorCategory::Request),
        (ProgramError::MissingSignature, ErrorCategory::Authorization),
        (ProgramError::NotWritable, ErrorCategory::Authorization),
        (ProgramError::AuthorityMismatch, ErrorCategory::Authorization),
        (ProgramError::DerivationFailed, ErrorCategory::AddressMismatch),
        (ProgramError::AddressMismatch, ErrorCategory::AddressMismatch),
        (ProgramError::InvalidProgramId, ErrorCategory::AddressMismatch),
        (ProgramError::AlreadyInitialized, ErrorCategory::StatePrecondition),
        (ProgramError::NotInitialized, ErrorCategory::StatePrecondition),
        (ProgramError::WrongOwner, ErrorCategory::StatePrecondition),
        (ProgramError::InvalidAccountData, ErrorCategory::StatePrecondition),
        (ProgramError::AssetMismatch, ErrorCategory::StatePrecondition),
        (ProgramError::Overflow, ErrorCategory::StatePrecondition),
        (ProgramError::Underflow, ErrorCategory::StatePrecondition),
        (ProgramError::Delegated(TokenError::InsufficientFunds), ErrorCategory::DelegatedCall),
        (ProgramError::Delegated(TokenError::AccountFrozen), ErrorCategory::DelegatedCall),
    ];
    for (error, category) in cases {
        assert_eq!(error.category(), category);
    }
}
