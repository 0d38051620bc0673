use vstd::prelude::*;
use crate::identity::Identity;
use solana_program::pubkey::Pubkey;

verus! {

/// What `Pubkey::try_find_program_address` returns for the two-seed
/// derivation used here (the seed tag bytes, then the owner's key bytes):
/// the result is a pure function of the seeds and the program id alone.
pub uninterp spec fn derived_of(seed_tag: Seq<u8>, owner: Seq<u8>, program: Seq<u8>) -> Option<
    (Seq<u8>, u8),
>;

/// An address claimed for a custody record is valid exactly when it equals
/// the derived address for the seed tag, the owner and the program.
pub open spec fn spec_address_valid(
    claimed: Seq<u8>,
    seed_tag: Seq<u8>,
    owner: Seq<u8>,
    program: Seq<u8>,
) -> bool {
    derived_of(seed_tag, owner, program) matches Some(p) && p.0 == claimed
}

/// Relies on solana_program's Pubkey::try_find_program_address: it is
/// deterministic in the seeds and the program id, the address it finds is
/// outside the space of addresses with a known private key, and it returns
/// None only in the statistically improbable event that no disambiguation
/// byte yields such an address, or when a seed is over the length limit.
#[verifier::external_body]
fn find_derived_address(seed_tag: &Vec<u8>, owner: &Identity, program_id: &Identity) -> (r: Option<
    (Identity, u8),
>)
    ensures
        match r {
            Some(p) => derived_of(seed_tag@, owner@, program_id@) == Some((p.0@, p.1)),
            None => derived_of(seed_tag@, owner@, program_id@) is None,
        },
{
    let owner_pk = Pubkey::new_from_array(owner.0);
    let program_pk = Pubkey::new_from_array(program_id.0);
    let found = Pubkey::try_find_program_address(
        &[seed_tag.as_slice(), owner_pk.as_ref()],
        &program_pk,
    );
    found.map(|(pk, bump)| (Identity(pk.to_bytes()), bump))
}

/// The address deriver: maps a seed tag and an owner identity to the
/// derived custody address and its disambiguation byte, or None when the
/// derivation finds no address outside the normal key space.
pub fn derive(seed_tag: &Vec<u8>, owner: &Identity, program_id: &Identity) -> (r: Option<
    (Identity, u8),
>)
    ensures
        match r {
            Some(p) => derived_of(seed_tag@, owner@, program_id@) == Some((p.0@, p.1)),
            None => derived_of(seed_tag@, owner@, program_id@) is None,
        },
{
    find_derived_address(seed_tag, owner, program_id)
}

/// Re-derives the custody address and compares it byte-for-byte with the
/// claimed one; returns the disambiguation byte when they match.
pub fn validate_address(
    claimed: &Identity,
    seed_tag: &Vec<u8>,
    owner: &Identity,
    program_id: &Identity,
) -> (r: Option<u8>)
    ensures
        r matches Some(bump) ==> derived_of(seed_tag@, owner@, program_id@) == Some(
            (claimed@, bump),
        ),
        r is Some <==> spec_address_valid(claimed@, seed_tag@, owner@, program_id@),
{
    match find_derived_address(seed_tag, owner, program_id) {
        Some(p) => {
            if p.0.equals(claimed) {
                Some(p.1)
            } else {
                None
            }
        },
        None => None,
    }
}

} // verus!
