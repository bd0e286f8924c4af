use anchor_lang::prelude::Pubkey;
use vstd::prelude::*;

use crate::error::ProgramError;

verus! {

/// A 32-byte ledger address: a wallet, a program, or an account.
#[derive(Clone, Copy, Debug)]
pub struct Address {
    pub bytes: [u8; 32],
}

impl View for Address {
    type V = Seq<u8>;

    open spec fn view(&self) -> Seq<u8> {
        self.bytes@
    }
}

impl PartialEq for Address {
    fn eq(&self, other: &Address) -> (same: bool) {
        let mut i: usize = 0;
        while i < 32
            invariant
                i <= 32,
                forall|j: int| 0 <= j < i ==> self.bytes@[j] == other.bytes@[j],
            decreases 32 - i,
        {
            if self.bytes[i] != other.bytes[i] {
                return false;
            }
            i += 1;
        }
        assert(self.bytes =~= other.bytes);
        true
    }
}

impl Eq for Address {

}

impl vstd::std_specs::cmp::PartialEqSpecImpl for Address {
    open spec fn obeys_eq_spec() -> bool {
        true
    }

    open spec fn eq_spec(&self, other: &Address) -> bool {
        *self == *other
    }
}

impl Address {
    /// The address with the given bytes.
    pub fn new(bytes: [u8; 32]) -> (a: Address)
        ensures
            a.bytes == bytes,
    {
        Address { bytes }
    }

    /// The bytes of the address.
    pub fn to_bytes(&self) -> (b: [u8; 32])
        ensures
            b == self.bytes,
    {
        self.bytes
    }

    /// An address is its bytes: two addresses with the same view are the same address.
    pub proof fn lemma_view_injective(a: Address, b: Address)
        requires
            a@ == b@,
        ensures
            a == b,
    {
        assert(a.bytes =~= b.bytes);
    }
}

/// The address whose bytes are `bytes`.
pub open spec fn address_of(bytes: Seq<u8>) -> Address {
    choose|a: Address| a@ == bytes
}

/// `address_of` gives every address back from its bytes.
pub proof fn lemma_address_of_view(a: Address)
    ensures
        address_of(a@) == a,
{
    Address::lemma_view_injective(address_of(a@), a);
}

/// The longest seed, in bytes, that a derivation accepts.
pub const MAX_SEED_LEN: usize = 32;

/// The label under which the counter account is derived.
pub open spec fn counter_seed() -> Seq<u8> {
    seq![99u8, 111, 117, 110, 116, 101, 114]
}

/// The address under which this program is deployed.
pub open spec fn spec_id() -> Address {
    Address {
        bytes: [
            28, 168, 158, 127, 150, 232, 164, 88, 174, 88, 235, 28, 100, 73, 155, 100,
            213, 42, 220, 94, 11, 97, 119, 4, 190, 247, 222, 150, 90, 134, 84, 81,
        ],
    }
}

/// The address under which this program is deployed.
#[verifier::when_used_as_spec(spec_id)]
pub fn id() -> (a: Address)
    ensures
        a == spec_id(),
{
    Address {
        bytes: [
            28, 168, 158, 127, 150, 232, 164, 88, 174, 88, 235, 28, 100, 73, 155, 100,
            213, 42, 220, 94, 11, 97, 119, 4, 190, 247, 222, 150, 90, 134, 84, 81,
        ],
    }
}

/// The address of the system allocator.
pub open spec fn spec_system_program_id() -> Address {
    Address {
        bytes: [
            0, 0, 0, 0, 0, 0, 0, 0, 0, 0, 0, 0, 0, 0, 0, 0,
            0, 0, 0, 0, 0, 0, 0, 0, 0, 0, 0, 0, 0, 0, 0, 0,
        ],
    }
}

/// The system allocator, which owns every account that no program has claimed.
#[verifier::when_used_as_spec(spec_system_program_id)]
pub fn system_program_id() -> (a: Address)
    ensures
        a == spec_system_program_id(),
{
    Address {
        bytes: [
            0, 0, 0, 0, 0, 0, 0, 0, 0, 0, 0, 0, 0, 0, 0, 0,
            0, 0, 0, 0, 0, 0, 0, 0, 0, 0, 0, 0, 0, 0, 0, 0,
        ],
    }
}

/// The address of the token-accounting program.
pub open spec fn spec_token_program_id() -> Address {
    Address {
        bytes: [
            6, 221, 246, 225, 215, 101, 161, 147, 217, 203, 225, 70, 206, 235, 121, 172,
            28, 180, 133, 237, 95, 91, 55, 145, 58, 140, 245, 133, 126, 255, 0, 169,
        ],
    }
}

/// The token-accounting program.
#[verifier::when_used_as_spec(spec_token_program_id)]
pub fn token_program_id() -> (a: Address)
    ensures
        a == spec_token_program_id(),
{
    Address {
        bytes: [
            6, 221, 246, 225, 215, 101, 161, 147, 217, 203, 225, 70, 206, 235, 121, 172,
            28, 180, 133, 237, 95, 91, 55, 145, 58, 140, 245, 133, 126, 255, 0, 169,
        ],
    }
}

/// The address of the program that derives and creates holding accounts.
pub open spec fn spec_associated_token_program_id() -> Address {
    Address {
        bytes: [
            140, 151, 37, 143, 78, 36, 137, 241, 187, 61, 16, 41, 20, 142, 13, 131,
            11, 90, 19, 153, 218, 255, 16, 132, 4, 142, 123, 216, 219, 233, 248, 89,
        ],
    }
}

/// The program that derives and creates holding accounts.
#[verifier::when_used_as_spec(spec_associated_token_program_id)]
pub fn associated_token_program_id() -> (a: Address)
    ensures
        a == spec_associated_token_program_id(),
{
    Address {
        bytes: [
            140, 151, 37, 143, 78, 36, 137, 241, 187, 61, 16, 41, 20, 142, 13, 131,
            11, 90, 19, 153, 218, 255, 16, 132, 4, 142, 123, 216, 219, 233, 248, 89,
        ],
    }
}

/// What `Pubkey::create_program_address` makes of the seeds followed by the one-byte seed
/// `bump`, under the program: the address, or nothing where it reports an error (the
/// hash of the seeds is a point of the curve, or there are too many seeds or one is too
/// long).
pub uninterp spec fn program_address_at(
    seeds: Seq<Seq<u8>>,
    bump: u8,
    program_id: Seq<u8>,
) -> Option<Seq<u8>>;

/// Whether the 32 bytes are a point of the curve that signing keys lie on, as
/// `Pubkey::is_on_curve` tells it. An address that is no such point has no private key.
pub uninterp spec fn is_curve_point(bytes: Seq<u8>) -> bool;

/// `bump` yields an address for the seeds, and no higher bump does.
pub open spec fn is_highest_bump(seeds: Seq<Seq<u8>>, bump: u8, program_id: Seq<u8>) -> bool {
    &&& bump >= 1
    &&& program_address_at(seeds, bump, program_id) is Some
    &&& forall|higher: u8|
        bump < higher ==> (#[trigger] program_address_at(seeds, higher, program_id)) is None
}

/// The outcome of the search for a program-derived address: the bumps are tried from 255
/// down to 1, and the first that yields an address decides. Where none does, there is
/// no address.
pub open spec fn program_address(
    seeds: Seq<Seq<u8>>,
    program_id: Seq<u8>,
) -> Option<(Seq<u8>, u8)> {
    if exists|bump: u8| is_highest_bump(seeds, bump, program_id) {
        let bump = choose|bump: u8| is_highest_bump(seeds, bump, program_id);
        Some((program_address_at(seeds, bump, program_id)->Some_0, bump))
    } else {
        None
    }
}

/// What the search states: a found bump yields the found address and is the highest
/// that yields one; where the search finds nothing, no bump from 1 to 255 yields an
/// address.
pub proof fn lemma_search_takes_highest_bump(seeds: Seq<Seq<u8>>, program_id: Seq<u8>)
    ensures
        match program_address(seeds, program_id) {
            Some((address, bump)) => is_highest_bump(seeds, bump, program_id)
                && program_address_at(seeds, bump, program_id) == Some(address),
            None => forall|bump: u8|
                bump >= 1 ==> (#[trigger] program_address_at(seeds, bump, program_id)) is None,
        },
{
    if !(exists|bump: u8| is_highest_bump(seeds, bump, program_id)) {
        lemma_no_bump_below(seeds, program_id, 255);
    }
}

/// Where no bump is the highest that yields an address, none from 1 to `top` yields one.
proof fn lemma_no_bump_below(seeds: Seq<Seq<u8>>, program_id: Seq<u8>, top: u8)
    requires
        !(exists|bump: u8| is_highest_bump(seeds, bump, program_id)),
        forall|higher: u8|
            top < higher ==> (#[trigger] program_address_at(seeds, higher, program_id)) is None,
    ensures
        forall|bump: u8|
            bump >= 1 ==> (#[trigger] program_address_at(seeds, bump, program_id)) is None,
    decreases top,
{
    if top >= 1 {
        if program_address_at(seeds, top, program_id) is Some {
            assert(is_highest_bump(seeds, top, program_id));
        } else {
            lemma_no_bump_below(seeds, program_id, (top - 1) as u8);
        }
    }
}

/// The seeds as sequences of bytes.
pub open spec fn seeds_view(seeds: Vec<Vec<u8>>) -> Seq<Seq<u8>> {
    Seq::new(seeds@.len(), |i: int| seeds@[i]@)
}

/// What a search found, with the address as its bytes.
pub open spec fn found_view(found: Option<(Address, u8)>) -> Option<(Seq<u8>, u8)> {
    match found {
        Some((address, bump)) => Some((address@, bump)),
        None => None,
    }
}

/// Whether one of the seeds is longer than a derivation accepts.
pub open spec fn has_long_seed(seeds: Seq<Seq<u8>>) -> bool {
    exists|i: int| 0 <= i < seeds.len() && (#[trigger] seeds[i]).len() > MAX_SEED_LEN
}

/// Calls `Pubkey::try_find_program_address`, which tries the bumps from 255 down to 1
/// with `Pubkey::create_program_address` and returns the first address that comes out,
/// with its bump, or nothing where none comes out. The contract claims that; that the
/// address returned is no point of the curve, which `create_program_address` tests
/// before it returns one; and that nothing comes out where a seed is longer than 32
/// bytes, which `create_program_address` refuses for every bump.
#[verifier::external_body]
fn try_find_program_address(
    seeds: &Vec<Vec<u8>>,
    program_id: &Address,
) -> (found: Option<(Address, u8)>)
    ensures
        found_view(found) == program_address(seeds_view(*seeds), program_id@),
        found matches Some((address, bump)) ==> program_address_at(
            seeds_view(*seeds),
            bump,
            program_id@,
        ) == Some(address@) && !is_curve_point(address@),
        has_long_seed(seeds_view(*seeds)) ==> found is None,
{
    let parts: Vec<&[u8]> = seeds.iter().map(|seed| seed.as_slice()).collect();
    let program = Pubkey::new_from_array(program_id.bytes);
    match Pubkey::try_find_program_address(&parts, &program) {
        Some((key, bump)) => Some((Address { bytes: key.to_bytes() }, bump)),
        None => None,
    }
}

/// The address and bump that a program derives from a sequence of seeds.
pub open spec fn derived_from(seeds: Seq<Seq<u8>>, program_id: Address) -> Option<(Address, u8)> {
    match program_address(seeds, program_id@) {
        Some((bytes, bump)) => Some((address_of(bytes), bump)),
        None => None,
    }
}

/// The address and bump that a program derives from one label.
pub open spec fn derived(label: Seq<u8>, program_id: Address) -> Option<(Address, u8)> {
    derived_from(seq![label], program_id)
}

/// The address of the holding account of `wallet` for the asset type `mint`.
pub open spec fn derived_holding(wallet: Address, mint: Address) -> Option<Address> {
    match derived_from(
        seq![wallet@, spec_token_program_id()@, mint@],
        spec_associated_token_program_id(),
    ) {
        Some((address, _)) => Some(address),
        None => None,
    }
}

fn copy_bytes(bytes: &[u8]) -> (copy: Vec<u8>)
    ensures
        copy@ == bytes@,
{
    let mut copy: Vec<u8> = Vec::new();
    let mut i: usize = 0;
    while i < bytes.len()
        invariant
            i <= bytes@.len(),
            copy@ == bytes@.subrange(0, i as int),
        decreases bytes@.len() - i,
    {
        copy.push(bytes[i]);
        i += 1;
    }
    copy
}

fn derive_from(seeds: &Vec<Vec<u8>>, program_id: &Address) -> (r: Option<(Address, u8)>)
    ensures
        r == derived_from(seeds_view(*seeds), *program_id),
        r matches Some((address, _)) ==> !is_curve_point(address@),
        has_long_seed(seeds_view(*seeds)) ==> r is None,
{
    let found = try_find_program_address(seeds, program_id);
    proof {
        if let Some((address, _)) = found {
            lemma_address_of_view(address);
        }
    }
    found
}

/// Derives the address that `program_id` controls under `label`, and the bump that goes
/// with it. Anyone who knows the label and the program id computes the same pair. The
/// address is no point of the curve, so no private key goes with it. Fails when the
/// search finds no bump, as it does for every label of more than 32 bytes.
pub fn derive(label: &[u8], program_id: &Address) -> (r: Result<(Address, u8), ProgramError>)
    ensures
        r == match derived(label@, *program_id) {
            Some(pair) => Ok::<(Address, u8), ProgramError>(pair),
            None => Err(ProgramError::DerivationFailed),
        },
        r matches Ok((address, _)) ==> !is_curve_point(address@),
        label@.len() > MAX_SEED_LEN ==> r is Err,
{
    let mut seeds: Vec<Vec<u8>> = Vec::new();
    seeds.push(copy_bytes(label));
    assert(seeds_view(seeds) =~= seq![label@]);
    assert(label@.len() > MAX_SEED_LEN ==> seeds_view(seeds)[0].len() > MAX_SEED_LEN);
    match derive_from(&seeds, program_id) {
        Some(pair) => Ok(pair),
        None => Err(ProgramError::DerivationFailed),
    }
}

/// Derives the address of the holding account of `wallet` for the asset type `mint`.
pub fn holding_address(wallet: &Address, mint: &Address) -> (r: Result<Address, ProgramError>)
    ensures
        r == match derived_holding(*wallet, *mint) {
            Some(address) => Ok::<Address, ProgramError>(address),
            None => Err(ProgramError::DerivationFailed),
        },
        r matches Ok(address) ==> !is_curve_point(address@),
{
    let token_program = token_program_id();
    let mut seeds: Vec<Vec<u8>> = Vec::new();
    seeds.push(copy_bytes(wallet.bytes.as_slice()));
    seeds.push(copy_bytes(token_program.bytes.as_slice()));
    seeds.push(copy_bytes(mint.bytes.as_slice()));
    assert(seeds_view(seeds) =~= seq![wallet@, spec_token_program_id()@, mint@]);
    match derive_from(&seeds, &associated_token_program_id()) {
        Some((address, _)) => Ok(address),
        None => Err(ProgramError::DerivationFailed),
    }
}

/// Derives the address of the counter account of `program_id`, and its bump.
pub fn counter_address(program_id: &Address) -> (r: Result<(Address, u8), ProgramError>)
    ensures
        r == match derived(counter_seed(), *program_id) {
            Some(pair) => Ok::<(Address, u8), ProgramError>(pair),
            None => Err(ProgramError::DerivationFailed),
        },
        r matches Ok((address, _)) ==> !is_curve_point(address@),
{
    let label: [u8; 7] = [99, 111, 117, 110, 116, 101, 114];
    derive(label.as_slice(), program_id)
}

} // verus!
