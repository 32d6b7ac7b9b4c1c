//! Pool registry: created by a salvage; records the salvage of one pool.
//! Its existence makes a second salvage of the same pool fail.
//! Address seeds: `["pool_registry", pool_address]`.

use vstd::prelude::*;

use crate::pubkey::Pubkey;

verus! {

/// Salvage state of one pool.
#[derive(Clone, Copy, Debug)]
pub struct PoolRegistry {
    pub amm_program_id: Pubkey,
    pub pool_address: Pubkey,
    pub salvor: Pubkey,
    /// Merkle root of the LP-holder snapshot at salvage time.
    pub lp_snapshot_merkle_root: [u8; 32],
    /// Total LP supply at the snapshot; the denominator of pro-rata claims.
    pub lp_total_supply_at_snapshot: u64,
    /// Lamports available to LP holders.
    pub lp_holder_pool_total_lamports: u64,
    /// Lamports LP holders have claimed so far.
    pub lp_holder_pool_claimed_lamports: u64,
    /// Slot of the salvage.
    pub salvaged_at_slot: u64,
    /// Unix time of the salvage.
    pub salvaged_at_ts: i64,
    /// Bump of the registry's address.
    pub bump: u8,
}

impl PoolRegistry {
    /// LP holders never claim more than the pool holds for them.
    pub open spec fn well_formed(self) -> bool {
        self.lp_holder_pool_claimed_lamports <= self.lp_holder_pool_total_lamports
    }
}

} // verus!
