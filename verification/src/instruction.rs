use vstd::bytes::{spec_u64_from_le_bytes, spec_u64_to_le_bytes, u64_from_le_bytes, u64_to_le_bytes};
use vstd::prelude::*;
use vstd::slice::slice_subrange;

use crate::account::AccountMeta;
use crate::address::Address;
use crate::error::ProgramError;

verus! {

/// The operations of the program, each with its arguments.
#[derive(Clone, Copy, Debug, PartialEq, Eq)]
pub enum InstructionKind {
    Initialize,
    InitializeCounter,
    IncrementCounter,
    DecrementCounter,
    InitTokenAccount,
    TransferTokens { amount: u64 },
}

/// A request to a program: the program it is addressed to, the accounts it names, and
/// its data.
#[derive(Clone, Debug, PartialEq, Eq)]
pub struct Instruction {
    pub program_id: Address,
    pub accounts: Vec<AccountMeta>,
    pub data: Vec<u8>,
}

impl InstructionKind {
    /// The 8-byte tag that instruction data starts with.
    pub open spec fn discriminator(self) -> Seq<u8> {
        match self {
            InstructionKind::Initialize => seq![175u8, 175, 109, 31, 13, 152, 155, 237],
            InstructionKind::InitializeCounter => seq![67u8, 89, 100, 87, 231, 172, 35, 124],
            InstructionKind::IncrementCounter => seq![16u8, 125, 2, 171, 73, 24, 207, 229],
            InstructionKind::DecrementCounter => seq![169u8, 37, 242, 230, 169, 126, 245, 38],
            InstructionKind::InitTokenAccount => seq![17u8, 16, 88, 108, 240, 140, 102, 248],
            InstructionKind::TransferTokens { .. } => seq![54u8, 180, 238, 175, 74, 85, 126, 188],
        }
    }

    /// The data of an instruction of this kind: the tag, then the arguments. The amount
    /// of a transfer follows in little-endian order.
    pub open spec fn encoding(self) -> Seq<u8> {
        match self {
            InstructionKind::TransferTokens { amount } => self.discriminator()
                + spec_u64_to_le_bytes(amount),
            _ => self.discriminator(),
        }
    }

    /// The operation that instruction data asks for. The first eight bytes select it;
    /// a transfer needs eight more for its amount. Bytes after that are not read.
    pub open spec fn decoding(data: Seq<u8>) -> Result<InstructionKind, ProgramError> {
        if data.len() < 8 {
            Err(ProgramError::UnknownInstruction)
        } else {
            let tag = data.subrange(0, 8);
            if tag == InstructionKind::Initialize.discriminator() {
                Ok(InstructionKind::Initialize)
            } else if tag == InstructionKind::InitializeCounter.discriminator() {
                Ok(InstructionKind::InitializeCounter)
            } else if tag == InstructionKind::IncrementCounter.discriminator() {
                Ok(InstructionKind::IncrementCounter)
            } else if tag == InstructionKind::DecrementCounter.discriminator() {
                Ok(InstructionKind::DecrementCounter)
            } else if tag == InstructionKind::InitTokenAccount.discriminator() {
                Ok(InstructionKind::InitTokenAccount)
            } else if tag == (InstructionKind::TransferTokens { amount: 0 }).discriminator() {
                if data.len() < 16 {
                    Err(ProgramError::InvalidInstructionData)
                } else {
                    Ok(
                        InstructionKind::TransferTokens {
                            amount: spec_u64_from_le_bytes(data.subrange(8, 16)),
                        },
                    )
                }
            } else {
                Err(ProgramError::UnknownInstruction)
            }
        }
    }

    fn tag(&self) -> (tag: [u8; 8])
        ensures
            tag@ == self.discriminator(),
    {
        let tag: [u8; 8] = match self {
            InstructionKind::Initialize => [175, 175, 109, 31, 13, 152, 155, 237],
            InstructionKind::InitializeCounter => [67, 89, 100, 87, 231, 172, 35, 124],
            InstructionKind::IncrementCounter => [16, 125, 2, 171, 73, 24, 207, 229],
            InstructionKind::DecrementCounter => [169, 37, 242, 230, 169, 126, 245, 38],
            InstructionKind::InitTokenAccount => [17, 16, 88, 108, 240, 140, 102, 248],
            InstructionKind::TransferTokens { .. } => [54, 180, 238, 175, 74, 85, 126, 188],
        };
        tag
    }

    /// Writes the data of an instruction of this kind.
    pub fn data(&self) -> (data: Vec<u8>)
        ensures
            data@ == self.encoding(),
    {
        let tag = self.tag();
        let mut data: Vec<u8> = Vec::new();
        let mut i: usize = 0;
        while i < 8
            invariant
                i <= 8,
                data@ == tag@.subrange(0, i as int),
            decreases 8 - i,
        {
            data.push(tag[i]);
            i += 1;
        }
        if let InstructionKind::TransferTokens { amount } = self {
            let mut tail = u64_to_le_bytes(*amount);
            data.append(&mut tail);
        }
        data
    }

    /// Reads the operation that instruction data asks for.
    pub fn decode(data: &[u8]) -> (r: Result<InstructionKind, ProgramError>)
        ensures
            r == InstructionKind::decoding(data@),
    {
        if data.len() < 8 {
            return Err(ProgramError::UnknownInstruction);
        }
        if starts_with(data, &InstructionKind::Initialize.tag()) {
            Ok(InstructionKind::Initialize)
        } else if starts_with(data, &InstructionKind::InitializeCounter.tag()) {
            Ok(InstructionKind::InitializeCounter)
        } else if starts_with(data, &InstructionKind::IncrementCounter.tag()) {
            Ok(InstructionKind::IncrementCounter)
        } else if starts_with(data, &InstructionKind::DecrementCounter.tag()) {
            Ok(InstructionKind::DecrementCounter)
        } else if starts_with(data, &InstructionKind::InitTokenAccount.tag()) {
            Ok(InstructionKind::InitTokenAccount)
        } else if starts_with(data, &(InstructionKind::TransferTokens { amount: 0 }).tag()) {
            if data.len() < 16 {
                Err(ProgramError::InvalidInstructionData)
            } else {
                let amount = u64_from_le_bytes(slice_subrange(data, 8, 16));
                Ok(InstructionKind::TransferTokens { amount })
            }
        } else {
            Err(ProgramError::UnknownInstruction)
        }
    }

    /// Reading the data that was written for an operation gives the operation back.
    pub proof fn lemma_encoding_round_trip(self)
        ensures
            InstructionKind::decoding(self.encoding()) == Ok::<InstructionKind, ProgramError>(self),
    {
        vstd::bytes::lemma_auto_spec_u64_to_from_le_bytes();
        let data = self.encoding();
        assert(data.subrange(0, 8) =~= self.discriminator());
        if let InstructionKind::TransferTokens { amount } = self {
            assert(data.subrange(8, 16) =~= spec_u64_to_le_bytes(amount));
        }
    }
}

/// Whether `data` starts with the eight bytes of `tag`.
fn starts_with(data: &[u8], tag: &[u8; 8]) -> (r: bool)
    requires
        data@.len() >= 8,
    ensures
        r == (data@.subrange(0, 8) == tag@),
{
    let mut i: usize = 0;
    while i < 8
        invariant
            i <= 8,
            data@.len() >= 8,
            forall|j: int| 0 <= j < i ==> data@[j] == tag@[j],
        decreases 8 - i,
    {
        if data[i] != tag[i] {
            return false;
        }
        i += 1;
    }
    assert(data@.subrange(0, 8) =~= tag@);
    true
}

} // verus!
