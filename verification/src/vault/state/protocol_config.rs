//! The vault's protocol config, controlled by the multisig.

use vstd::prelude::*;

use crate::pubkey::Pubkey;
use crate::vault::constants::{PROTOCOL_SHARE_BPS_CEILING, TOTAL_SHARE_BPS};

verus! {

/// Distribution split and operating parameters of the vault.
#[derive(Clone, Copy, Debug)]
pub struct ProtocolConfig {
    /// The multisig controlling the vault.
    pub authority: Pubkey,
    /// Authority awaiting a timelocked rotation; zeroed when none is pending.
    pub pending_authority: Pubkey,
    /// Unix time at which `pending_authority` takes effect.
    pub pending_authority_eta: i64,
    /// Original-LP share in bps.
    pub lp_holder_share_bps: u16,
    /// Salvor share in bps.
    pub salvor_share_bps: u16,
    /// Protocol share in bps, at most the Charter ceiling.
    pub protocol_share_bps: u16,
    /// Charter ceiling on the priority fee (lamports per compute unit).
    pub max_priority_fee_ceiling_lamports: u64,
    /// Maximum slippage of the swap leg, in bps.
    pub max_slippage_bps: u16,
    /// Swap dust threshold in lamports.
    pub jupiter_dust_threshold_lamports: u64,
    /// Timelock on parameter changes, in seconds.
    pub timelock_seconds: i64,
    /// While set, salvages are refused; claims stay open.
    pub emergency_paused: bool,
    /// Bump of the config's address.
    pub bump: u8,
}

/// The three shares sum to the whole of the proceeds.
pub open spec fn shares_sum_to_whole(lp: u16, salvor: u16, protocol: u16) -> bool {
    lp + salvor + protocol == TOTAL_SHARE_BPS
}

impl ProtocolConfig {
    /// The Charter invariant on the split: the protocol share is at most
    /// the ceiling and the shares sum to exactly 10_000 bps.
    pub open spec fn well_formed(self) -> bool {
        &&& self.protocol_share_bps <= PROTOCOL_SHARE_BPS_CEILING
        &&& shares_sum_to_whole(
            self.lp_holder_share_bps,
            self.salvor_share_bps,
            self.protocol_share_bps,
        )
    }
}

} // verus!
