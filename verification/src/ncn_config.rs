//! Per-collective configuration record: the administrator addresses and the
//! embedded dual-slot fee store.

use vstd::prelude::*;

use crate::fees::Fees;
use crate::pda::{pda_of, try_find_pda, views_of};
use crate::pubkey::{pubkey_to_vec, Pubkey};

verus! {

/// The seed tag under which configuration records are addressed: the bytes
/// of `"config"`.
pub open spec fn spec_config_seed_tag() -> Seq<u8> {
    seq![99u8, 111u8, 110u8, 102u8, 105u8, 103u8]
}

/// The full seed list addressing the configuration record of `ncn`.
pub open spec fn spec_config_seeds(ncn: Pubkey) -> Seq<Seq<u8>> {
    seq![spec_config_seed_tag(), ncn@]
}

/// Global configuration for one collective: who may administer it, and the
/// fee schedule it carries.
#[derive(Clone, Copy, Debug, PartialEq, Eq)]
pub struct NcnConfig {
    /// The collective this configuration belongs to.
    pub ncn: Pubkey,
    /// Authority that may resolve ties.
    pub tie_breaker_admin: Pubkey,
    /// Authority that may change the fee schedule.
    pub fee_admin: Pubkey,
    /// The dual-slot fee store.
    pub fees: Fees,
    /// Bump seed of the record's derived address.
    pub bump: u8,
}

impl NcnConfig {
    /// Builds the configuration record.
    pub fn new(ncn: Pubkey, tie_breaker_admin: Pubkey, fee_admin: Pubkey, fees: Fees) -> (r:
        NcnConfig)
        ensures
            r == (NcnConfig { ncn, tie_breaker_admin, fee_admin, fees, bump: 0u8 }),
    {
        NcnConfig { ncn, tie_breaker_admin, fee_admin, fees, bump: 0 }
    }

    /// The bare seed list under which configuration records are addressed.
    pub fn seeds() -> (r: Vec<Vec<u8>>)
        ensures
            r@.len() == 1,
            r@[0]@ == spec_config_seed_tag(),
    {
        let mut tag: Vec<u8> = Vec::new();
        tag.push(99);
        tag.push(111);
        tag.push(110);
        tag.push(102);
        tag.push(105);
        tag.push(103);
        proof {
            assert(tag@ =~= spec_config_seed_tag());
        }
        let mut r: Vec<Vec<u8>> = Vec::new();
        r.push(tag);
        r
    }

    /// The derived address, bump and seeds of the configuration record of
    /// `ncn` under `program_id`, or `None` in the statistically improbable
    /// event that no bump seed yields a valid address.
    pub fn find_program_address(program_id: &Pubkey, ncn: &Pubkey) -> (r: Option<
        (Pubkey, u8, Vec<Vec<u8>>),
    >)
        ensures
            ({
                let d = pda_of(spec_config_seeds(*ncn), program_id@);
                match r {
                    Some(t) => d == Some((t.0@, t.1)) && t.2@.len() == 2 && t.2@[0]@
                        == spec_config_seed_tag() && t.2@[1]@ == ncn@,
                    None => d is None,
                }
            }),
    {
        let mut seeds = Self::seeds();
        seeds.push(pubkey_to_vec(ncn));
        proof {
            assert(views_of(seeds@) =~~= spec_config_seeds(*ncn));
        }
        match try_find_pda(&seeds, program_id) {
            Some((pda, bump)) => Some((pda, bump, seeds)),
            None => None,
        }
    }
}

} // verus!
