use vstd::prelude::*;

verus! {

/// The reason the token-accounting program gives when it refuses a transfer.
#[derive(Clone, Copy, Debug, PartialEq, Eq)]
pub enum TokenError {
    /// The source or the destination holding is frozen.
    AccountFrozen,
    /// The source holds less than the requested amount.
    InsufficientFunds,
    /// Source and destination hold different asset types.
    MintMismatch,
    /// The authority named in the call does not own the source holding.
    OwnerMismatch,
    /// The destination cannot hold the sum.
    Overflow,
}

/// The four families of rejection, plus the one for requests that cannot be read at all.
#[derive(Clone, Copy, Debug, PartialEq, Eq)]
pub enum ErrorCategory {
    /// The request itself is malformed: it names another program, an unknown operation,
    /// or too few accounts.
    Request,
    /// A signature or a write permission is missing, or the wrong party asks for a transfer.
    Authorization,
    /// A supplied address is not the one the derivation gives.
    AddressMismatch,
    /// The account is not in the state the operation needs, or the arithmetic would leave
    /// the range of the counter.
    StatePrecondition,
    /// The token-accounting program refused the delegated call.
    DelegatedCall,
}

/// A typed rejection. The first failing check aborts the whole instruction.
#[derive(Clone, Copy, Debug, PartialEq, Eq)]
pub enum ProgramError {
    /// The instruction is addressed to another program.
    IncorrectProgramId,
    /// The instruction data does not start with a known discriminator.
    UnknownInstruction,
    /// The arguments after the discriminator have the wrong length.
    InvalidInstructionData,
    /// The instruction names fewer accounts than its shape requires.
    NotEnoughAccounts,
    /// An account that must sign carries no signature.
    MissingSignature,
    /// An account that the instruction mutates is not writable.
    NotWritable,
    /// The holding does not belong to the wallet that the instruction names as its
    /// authority.
    AuthorityMismatch,
    /// No bump yields an address off the curve for the label.
    DerivationFailed,
    /// The supplied address differs from the derived one.
    AddressMismatch,
    /// A program account is not the program the shape expects.
    InvalidProgramId,
    /// A create operation targets an account that is already in use.
    AlreadyInitialized,
    /// An operation targets an account that was never created.
    NotInitialized,
    /// The account does not carry the ownership tag the shape expects.
    WrongOwner,
    /// The account is not of the expected type or size.
    InvalidAccountData,
    /// The holding is of another asset type than the instruction names.
    AssetMismatch,
    /// Incrementing would exceed the largest count.
    Overflow,
    /// Decrementing would go below zero.
    Underflow,
    /// The token-accounting program refused the call; its reason is passed on unchanged.
    Delegated(TokenError),
}

impl ProgramError {
    pub open spec fn spec_category(&self) -> ErrorCategory {
        match *self {
            ProgramError::IncorrectProgramId
            | ProgramError::UnknownInstruction
            | ProgramError::InvalidInstructionData
            | ProgramError::NotEnoughAccounts => ErrorCategory::Request,
            ProgramError::MissingSignature
            | ProgramError::NotWritable
            | ProgramError::AuthorityMismatch => ErrorCategory::Authorization,
            ProgramError::DerivationFailed
            | ProgramError::AddressMismatch
            | ProgramError::InvalidProgramId => ErrorCategory::AddressMismatch,
            ProgramError::AlreadyInitialized
            | ProgramError::NotInitialized
            | ProgramError::WrongOwner
            | ProgramError::InvalidAccountData
            | ProgramError::AssetMismatch
            | ProgramError::Overflow
            | ProgramError::Underflow => ErrorCategory::StatePrecondition,
            ProgramError::Delegated(_) => ErrorCategory::DelegatedCall,
        }
    }

    /// The family a rejection belongs to.
    #[verifier::when_used_as_spec(spec_category)]
    pub fn category(&self) -> (c: ErrorCategory)
        ensures
            c == self.spec_category(),
    {
        match self {
            ProgramError::IncorrectProgramId
            | ProgramError::UnknownInstruction
            | ProgramError::InvalidInstructionData
            | ProgramError::NotEnoughAccounts => ErrorCategory::Request,
            ProgramError::MissingSignature
            | ProgramError::NotWritable
            | ProgramError::AuthorityMismatch => ErrorCategory::Authorization,
            ProgramError::DerivationFailed
            | ProgramError::AddressMismatch
            | ProgramError::InvalidProgramId => ErrorCategory::AddressMismatch,
            ProgramError::AlreadyInitialized
            | ProgramError::NotInitialized
            | ProgramError::WrongOwner
            | ProgramError::InvalidAccountData
            | ProgramError::AssetMismatch
            | ProgramError::Overflow
            | ProgramError::Underflow => ErrorCategory::StatePrecondition,
            ProgramError::Delegated(_) => ErrorCategory::DelegatedCall,
        }
    }
}

} // verus!
