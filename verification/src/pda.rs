//! Program-derived address lookup for the crate's account types.

use vstd::prelude::*;

use crate::pubkey::Pubkey;

verus! {

/// The derived address and bump seed that the runtime's address derivation
/// assigns to these seeds under this program id, if any bump yields one.
pub uninterp spec fn pda_of(seeds: Seq<Seq<u8>>, program_id: Seq<u8>) -> Option<(Seq<u8>, u8)>;

/// The byte views of a list of seed buffers.
pub open spec fn views_of(seeds: Seq<Vec<u8>>) -> Seq<Seq<u8>> {
    Seq::new(seeds.len(), |i: int| seeds[i]@)
}

/// Relies on solana_program's `Pubkey::try_find_program_address`: the derived
/// address and bump depend only on the seed bytes and the program id, and
/// `None` comes back exactly when no bump seed yields a valid address for
/// these seeds.
#[verifier::external_body]
pub(crate) fn try_find_pda(seeds: &Vec<Vec<u8>>, program_id: &Pubkey) -> (r: Option<(Pubkey, u8)>)
    ensures
        ({
            let d = pda_of(views_of(seeds@), program_id@);
            match r {
                Some(p) => d == Some((p.0@, p.1)),
                None => d is None,
            }
        }),
{
    let seed_slices: Vec<&[u8]> = seeds.iter().map(|s| s.as_slice()).collect();
    solana_program::pubkey::Pubkey::try_find_program_address(
        &seed_slices,
        &solana_program::pubkey::Pubkey::new_from_array(program_id.0),
    ).map(|(pk, bump)| (Pubkey(pk.to_bytes()), bump))
}

} // verus!
