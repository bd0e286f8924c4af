use vstd::bytes::{spec_u64_from_le_bytes, spec_u64_to_le_bytes, u64_from_le_bytes, u64_to_le_bytes};
use vstd::prelude::*;
use vstd::slice::slice_subrange;

use crate::error::ProgramError;

verus! {

/// The counter record that the program owns. There is one per deployment.
#[derive(Clone, Copy, Debug, PartialEq, Eq)]
pub struct CounterAccount {
    pub count: u64,
}

/// The size of a stored counter account: an 8-byte tag, then the count.
pub const COUNTER_SPACE: usize = 16;

/// The tag that marks stored bytes as a counter account.
pub open spec fn counter_discriminator() -> Seq<u8> {
    seq![164u8, 8, 153, 71, 8, 44, 93, 22]
}

/// Bytes that were never written: every byte is zero. An account without data counts too.
pub open spec fn all_zero(data: Seq<u8>) -> bool {
    forall|i: int| 0 <= i < data.len() ==> data[i] == 0
}

/// Whether every byte of `data` is zero.
pub fn is_all_zero(data: &[u8]) -> (zero: bool)
    ensures
        zero == all_zero(data@),
{
    let mut i: usize = 0;
    while i < data.len()
        invariant
            i <= data@.len(),
            forall|j: int| 0 <= j < i ==> data@[j] == 0,
        decreases data@.len() - i,
    {
        if data[i] != 0 {
            return false;
        }
        i += 1;
    }
    true
}

impl CounterAccount {
    /// The stored form of a counter account: the tag, then the count in little-endian order.
    pub open spec fn encoding(self) -> Seq<u8> {
        counter_discriminator() + spec_u64_to_le_bytes(self.count)
    }

    /// What stored bytes hold: a counter account, or the reason why they hold none.
    pub open spec fn decoding(data: Seq<u8>) -> Result<CounterAccount, ProgramError> {
        if all_zero(data) {
            Err(ProgramError::NotInitialized)
        } else if data.len() != COUNTER_SPACE || data.subrange(0, 8) != counter_discriminator() {
            Err(ProgramError::InvalidAccountData)
        } else {
            Ok(CounterAccount { count: spec_u64_from_le_bytes(data.subrange(8, 16)) })
        }
    }

    /// The counter after one increment. The count does not wrap: at the largest value
    /// the increment is refused.
    pub open spec fn incremented(self) -> Result<CounterAccount, ProgramError> {
        if self.count < u64::MAX {
            Ok(CounterAccount { count: (self.count + 1) as u64 })
        } else {
            Err(ProgramError::Overflow)
        }
    }

    /// The counter after one decrement. At zero the decrement is refused.
    pub open spec fn decremented(self) -> Result<CounterAccount, ProgramError> {
        if self.count >= 1 {
            Ok(CounterAccount { count: (self.count - 1) as u64 })
        } else {
            Err(ProgramError::Underflow)
        }
    }

    /// Writes the account in its stored form.
    pub fn try_serialize(&self) -> (data: Vec<u8>)
        ensures
            data@ == self.encoding(),
    {
        let mut data: Vec<u8> = vec![164u8, 8, 153, 71, 8, 44, 93, 22];
        let mut count = u64_to_le_bytes(self.count);
        data.append(&mut count);
        data
    }

    /// Reads an account from its stored form. Bytes that were never written are rejected
    /// as not initialized; bytes of another size or with another tag as invalid.
    pub fn try_deserialize(data: &[u8]) -> (r: Result<CounterAccount, ProgramError>)
        ensures
            r == CounterAccount::decoding(data@),
    {
        if is_all_zero(data) {
            return Err(ProgramError::NotInitialized);
        }
        if data.len() != COUNTER_SPACE {
            return Err(ProgramError::InvalidAccountData);
        }
        let tag: [u8; 8] = [164, 8, 153, 71, 8, 44, 93, 22];
        let mut i: usize = 0;
        while i < 8
            invariant
                i <= 8,
                data@.len() == 16,
                !all_zero(data@),
                tag@ == counter_discriminator(),
                forall|j: int| 0 <= j < i ==> data@[j] == counter_discriminator()[j],
            decreases 8 - i,
        {
            if data[i] != tag[i] {
                return Err(ProgramError::InvalidAccountData);
            }
            i += 1;
        }
        assert(data@.subrange(0, 8) =~= counter_discriminator());
        let count = u64_from_le_bytes(slice_subrange(data, 8, 16));
        Ok(CounterAccount { count })
    }

    /// Reading what was written gives the account back.
    pub proof fn lemma_encoding_round_trip(self)
        ensures
            CounterAccount::decoding(self.encoding()) == Ok::<CounterAccount, ProgramError>(self),
    {
        vstd::bytes::lemma_auto_spec_u64_to_from_le_bytes();
        let data = self.encoding();
        assert(data.subrange(0, 8) =~= counter_discriminator());
        assert(data.subrange(8, 16) =~= spec_u64_to_le_bytes(self.count));
    }
}

} // verus!
