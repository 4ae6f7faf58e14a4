use solana_program::pubkey::Pubkey;
use vstd::prelude::*;

use crate::state::PDA_SEED;

verus! {

/// The address that the ledger derives for a program from a list of seeds,
/// or `None` where those seeds give no valid derived address.
pub uninterp spec fn program_address_of(seeds: Seq<Seq<u8>>, program_id: Seq<u8>) -> Option<Seq<u8>>;

/// The seeds of a metadata record's address: the fixed seed, the data
/// account's address and the bump byte.
pub open spec fn metadata_seeds(data_key: Seq<u8>, bump: u8) -> Seq<Seq<u8>> {
    seq![PDA_SEED@, data_key, seq![bump]]
}

/// Whether `bump` re-derives `address` as the metadata record of `data_key`.
pub open spec fn derives_metadata(program_id: Seq<u8>, data_key: Seq<u8>, bump: u8, address: Seq<u8>) -> bool {
    program_address_of(metadata_seeds(data_key, bump), program_id) == Some(address)
}

/// The bump that a search from 255 downwards finds first: it gives a valid
/// address and no larger bump does.
pub open spec fn is_canonical_bump(program_id: Seq<u8>, data_key: Seq<u8>, bump: u8) -> bool {
    &&& program_address_of(metadata_seeds(data_key, bump), program_id) is Some
    &&& forall|c: u8| #![trigger metadata_seeds(data_key, c)]
        bump < c ==> program_address_of(metadata_seeds(data_key, c), program_id) is None
}

/// Relies on `Pubkey::create_program_address` of solana_program: it hashes
/// the seeds and the program id, and fails where the hash is a curve point
/// or a seed is too long; the outcome depends on its arguments alone.
#[verifier::external_body]
fn create_program_address(seed: &[u8], data_key: &[u8; 32], bump: u8, program_id: &[u8; 32]) -> (r: Option<[u8; 32]>)
    ensures
        match r {
            Some(a) => program_address_of(seq![seed@, data_key@, seq![bump]], program_id@) == Some(a@),
            None => program_address_of(seq![seed@, data_key@, seq![bump]], program_id@) is None,
        },
{
    let program = Pubkey::new_from_array(*program_id);
    Pubkey::create_program_address(&[seed, data_key, &[bump]], &program).ok().map(|a| a.to_bytes())
}

/// Relies on `Pubkey::try_find_program_address` of solana_program: it tries
/// the bumps from 255 down to 1 with `create_program_address` and returns the
/// first address that is found, with its bump, or `None` where none is.
#[verifier::external_body]
fn try_find_program_address(seed: &[u8], data_key: &[u8; 32], program_id: &[u8; 32]) -> (r: Option<([u8; 32], u8)>)
    ensures
        match r {
            Some((a, b)) => {
                &&& 1 <= b
                &&& program_address_of(seq![seed@, data_key@, seq![b]], program_id@) == Some(a@)
                &&& forall|c: u8| #![trigger seq![c]]
                    b < c ==> program_address_of(seq![seed@, data_key@, seq![c]], program_id@) is None
            },
            None => forall|c: u8| #![trigger seq![c]]
                1 <= c ==> program_address_of(seq![seed@, data_key@, seq![c]], program_id@) is None,
        },
{
    let program = Pubkey::new_from_array(*program_id);
    Pubkey::try_find_program_address(&[seed, data_key], &program).map(|(a, b)| (a.to_bytes(), b))
}

/// Whether `address` is the metadata record's address for `data_key` under
/// `bump`.
pub fn is_metadata_address(program_id: &[u8; 32], data_key: &[u8; 32], bump: u8, address: &[u8; 32]) -> (r: bool)
    ensures
        r == derives_metadata(program_id@, data_key@, bump, address@),
{
    let seed = PDA_SEED;
    match create_program_address(seed.as_slice(), data_key, bump, program_id) {
        Some(a) => crate::state::array32_eq(&a, address),
        None => false,
    }
}

/// Searches for the metadata record's address of `data_key`, with the bump
/// that re-derives it.
pub fn find_metadata_address(program_id: &[u8; 32], data_key: &[u8; 32]) -> (r: Option<([u8; 32], u8)>)
    ensures
        r matches Some((a, b)) ==> 1 <= b && derives_metadata(program_id@, data_key@, b, a@)
            && is_canonical_bump(program_id@, data_key@, b),
        r is None ==> forall|c: u8| #![trigger metadata_seeds(data_key@, c)]
            1 <= c ==> program_address_of(metadata_seeds(data_key@, c), program_id@) is None,
{
    let seed = PDA_SEED;
    let r = try_find_program_address(seed.as_slice(), data_key, program_id);
    proof {
        assert(seed@ == PDA_SEED@);
    }
    r
}

} // verus!
