//! Claim record: created when an original LP holder withdraws their share;
//! its existence prevents a second claim.
//! Address seeds: `["claim_record", pool_address, lp_holder]`.

use vstd::prelude::*;

use crate::pubkey::Pubkey;

verus! {

/// One processed LP-holder claim.
#[derive(Clone, Copy, Debug)]
pub struct ClaimRecord {
    pub pool_address: Pubkey,
    pub lp_holder: Pubkey,
    /// Lamports claimed.
    pub amount_lamports: u64,
    /// The holder's LP balance at the snapshot.
    pub lp_balance_at_snapshot: u64,
    /// Slot of the claim.
    pub claimed_at_slot: u64,
    /// Unix time of the claim.
    pub claimed_at_ts: i64,
    /// Bump of the record's address.
    pub bump: u8,
}

} // verus!
