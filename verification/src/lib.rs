//! Core state for an epoch-based reward distribution protocol: a dual-slot
//! fee schedule whose changes only take effect at the next epoch boundary,
//! and a bounded, content-addressed table of asset weights that is built
//! collaboratively and then frozen.

use vstd::prelude::*;

pub mod error;
pub mod fees;
pub mod ncn_config;
pub mod pda;
pub mod pubkey;
pub mod weight_table;

verus! {

/// Basis-point ceiling: 10000 bps == 100%.
pub const MAX_FEE_BPS: u64 = 10_000;

} // verus!
