//! Derived addresses: the one canonical address of each record.
//!
//! A record's address is computed from a tag that names its kind and from the
//! identities it belongs to. The same seeds always give the same address, so a
//! record can be found again from what is known about it, and a second record
//! for the same seeds has nowhere to go.

use crate::address::Address;
use vstd::bytes::{lemma_auto_spec_u64_to_from_le_bytes, spec_u64_to_le_bytes, u64_to_le_bytes};
use vstd::prelude::*;

verus! {

/// The tag of a DAO's seeds: the bytes of `dao`.
pub const DAO_TAG: [u8; 3] = [100, 97, 111];

/// The tag of a proposal's seeds: the bytes of `proposal`.
pub const PROPOSAL_TAG: [u8; 8] = [112, 114, 111, 112, 111, 115, 97, 108];

/// The tag of a vote's seeds: the bytes of `vote`.
pub const VOTE_TAG: [u8; 4] = [118, 111, 116, 101];

/// The address and bump seed that the program `program` derives from `seeds`,
/// or `None` where the seeds admit no derived address.
///
/// This stands for the search that `Pubkey::try_find_program_address` makes:
/// a SHA-256 hash over the seeds, a bump seed, the program and a marker, for
/// the largest bump seed whose hash is no point of the ed25519 curve.
pub uninterp spec fn program_address(seeds: Seq<Seq<u8>>, program: Seq<u8>) -> Option<
    (Seq<u8>, u8),
>;

/// The seeds as sequences of bytes.
pub open spec fn seeds_view(seeds: Seq<Vec<u8>>) -> Seq<Seq<u8>> {
    Seq::new(seeds.len(), |i: int| seeds[i]@)
}

/// A derived address and its bump seed, as plain values.
pub open spec fn derived_view(derived: Option<(Address, u8)>) -> Option<(Seq<u8>, u8)> {
    match derived {
        Some((address, bump)) => Some((address@, bump)),
        None => None,
    }
}

/// The seeds of the DAO that `authority` controls.
pub open spec fn dao_seeds(authority: Seq<u8>) -> Seq<Seq<u8>> {
    seq![DAO_TAG@, authority]
}

/// The seeds of the proposal created under the DAO at `dao` when that DAO's
/// counter stood at `index`.
pub open spec fn proposal_seeds(dao: Seq<u8>, index: u64) -> Seq<Seq<u8>> {
    seq![PROPOSAL_TAG@, dao, spec_u64_to_le_bytes(index)]
}

/// The seeds of the vote of `voter` on the proposal at `proposal`.
pub open spec fn vote_seeds(voter: Seq<u8>, proposal: Seq<u8>) -> Seq<Seq<u8>> {
    seq![VOTE_TAG@, voter, proposal]
}

/// The most seeds that `Pubkey` takes for a derivation, the bump seed
/// included.
pub const MAX_SEEDS: usize = 16;

/// The most bytes that `Pubkey` takes in one seed.
pub const MAX_SEED_LEN: usize = 32;

/// The seeds leave room for the bump seed, and none is too long.
pub open spec fn seeds_fit(seeds: Seq<Seq<u8>>) -> bool {
    &&& seeds.len() < MAX_SEEDS
    &&& forall|i: int| 0 <= i < seeds.len() ==> (#[trigger] seeds[i]).len() <= MAX_SEED_LEN
}

/// The seeds of a DAO, of a proposal and of a vote are always within what a
/// derivation takes, so no derivation of this library is refused for its
/// seeds' number or length.
pub proof fn law_seeds_fit(first: Seq<u8>, second: Seq<u8>, index: u64)
    requires
        first.len() == 32,
        second.len() == 32,
    ensures
        seeds_fit(dao_seeds(first)),
        seeds_fit(proposal_seeds(first, index)),
        seeds_fit(vote_seeds(first, second)),
{
    lemma_auto_spec_u64_to_from_le_bytes();
    assert(spec_u64_to_le_bytes(index).len() == 8);
}

/// Trusted: calls `Pubkey::try_find_program_address` of `anchor_lang` (the
/// `Address` type of `solana-address`). The contract claims only that the
/// outcome is a function of the seeds' bytes and the program's bytes, the one
/// named `program_address`. The call returns `None` rather than panic when
/// there are too many seeds, a seed is too long or no bump seed fits.
#[verifier::external_body]
fn try_find_program_address(seeds: &Vec<Vec<u8>>, program: &Address) -> (derived: Option<
    (Address, u8),
>)
    ensures
        derived_view(derived) == program_address(seeds_view(seeds@), program@),
{
    let parts: Vec<&[u8]> = seeds.iter().map(|seed| seed.as_slice()).collect();
    let id = anchor_lang::prelude::Pubkey::new_from_array(program.bytes);
    match anchor_lang::prelude::Pubkey::try_find_program_address(&parts, &id) {
        Some((key, bump)) => Some((Address { bytes: key.to_bytes() }, bump)),
        None => None,
    }
}

/// A copy of `bytes` that a seed list can own.
fn seed_of(bytes: &[u8]) -> (seed: Vec<u8>)
    ensures
        seed@ == bytes@,
{
    let mut seed: Vec<u8> = Vec::new();
    let mut i: usize = 0;
    while i < bytes.len()
        invariant
            i <= bytes.len(),
            seed@ == bytes@.subrange(0, i as int),
        decreases bytes.len() - i,
    {
        seed.push(bytes[i]);
        i += 1;
    }
    seed
}

/// The address of the DAO that `authority` controls under `program`.
pub fn find_dao_address(program: &Address, authority: &Address) -> (derived: Option<(Address, u8)>)
    ensures
        derived_view(derived) == program_address(dao_seeds(authority@), program@),
{
    let mut seeds: Vec<Vec<u8>> = Vec::new();
    seeds.push(seed_of(DAO_TAG.as_slice()));
    seeds.push(authority.to_vec());
    assert(seeds_view(seeds@) =~= dao_seeds(authority@));
    try_find_program_address(&seeds, program)
}

/// The address of the proposal that the DAO at `dao` creates when its counter
/// stands at `index`.
pub fn find_proposal_address(program: &Address, dao: &Address, index: u64) -> (derived: Option<
    (Address, u8),
>)
    ensures
        derived_view(derived) == program_address(proposal_seeds(dao@, index), program@),
{
    let mut seeds: Vec<Vec<u8>> = Vec::new();
    seeds.push(seed_of(PROPOSAL_TAG.as_slice()));
    seeds.push(dao.to_vec());
    seeds.push(u64_to_le_bytes(index));
    assert(seeds_view(seeds@) =~= proposal_seeds(dao@, index));
    try_find_program_address(&seeds, program)
}

/// The address of the vote of `voter` on the proposal at `proposal`.
pub fn find_vote_address(program: &Address, voter: &Address, proposal: &Address) -> (derived:
    Option<(Address, u8)>)
    ensures
        derived_view(derived) == program_address(vote_seeds(voter@, proposal@), program@),
{
    let mut seeds: Vec<Vec<u8>> = Vec::new();
    seeds.push(seed_of(VOTE_TAG.as_slice()));
    seeds.push(voter.to_vec());
    seeds.push(proposal.to_vec());
    assert(seeds_view(seeds@) =~= vote_seeds(voter@, proposal@));
    try_find_program_address(&seeds, program)
}

} // verus!
