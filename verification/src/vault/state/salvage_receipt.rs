//! Salvage receipt: issued at the end of a salvage; records the 40/40/20
//! distribution. Read-only after issuance.
//! Address seeds: `["salvage_receipt", pool_address]`.

use vstd::prelude::*;

use crate::pubkey::Pubkey;

verus! {

/// The distribution a salvage made.
#[derive(Clone, Copy, Debug)]
pub struct SalvageReceipt {
    pub pool_address: Pubkey,
    pub salvor: Pubkey,
    /// Lamports routed to the LP-holder pool vault.
    pub lp_holder_amount_lamports: u64,
    /// Lamports paid to the salvor.
    pub salvor_amount_lamports: u64,
    /// Lamports routed to the protocol treasury.
    pub protocol_amount_lamports: u64,
    /// Proceeds before the split (the sum of the three above).
    pub total_proceeds_lamports: u64,
    /// Slot of issue.
    pub issued_at_slot: u64,
    /// Unix time of issue.
    pub issued_at_ts: i64,
    /// Bump of the receipt's address.
    pub bump: u8,
}

} // verus!
