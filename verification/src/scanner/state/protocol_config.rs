//! The scanner's protocol config, controlled by the multisig.

use vstd::prelude::*;

use crate::pubkey::Pubkey;
use crate::scanner::constants::MIN_CERT_TTL_SECONDS;

verus! {

/// Thresholds and switches of the scanner.
#[derive(Clone, Copy, Debug)]
pub struct ProtocolConfig {
    /// The multisig controlling the scanner.
    pub authority: Pubkey,
    /// Authority awaiting a timelocked rotation; zeroed when none is pending.
    pub pending_authority: Pubkey,
    /// Unix time at which `pending_authority` takes effect.
    pub pending_authority_eta: i64,
    /// Criterion 1: minimum seconds since the last swap.
    pub inactivity_seconds: u64,
    /// Criterion 2: minimum price drop from launch, in bps.
    pub price_collapse_bps: u16,
    /// Criterion 3: minimum residual TVL in lamports.
    pub min_tvl_lamports: u64,
    /// Staleness window of uncertified anchors, in seconds.
    pub anchor_staleness_seconds: u64,
    /// Criterion 4: LP supply at or below this counts as burned.
    pub lp_burn_dust_threshold: u64,
    /// Lifetime of an eligibility certificate, in seconds.
    pub cert_ttl_seconds: i64,
    /// While set, pool evaluation is refused.
    pub paused: bool,
    /// Bump of the config's address.
    pub bump: u8,
}

impl ProtocolConfig {
    /// The config invariant the scanner keeps: certificates live at least
    /// `MIN_CERT_TTL_SECONDS`.
    pub open spec fn well_formed(self) -> bool {
        self.cert_ttl_seconds >= MIN_CERT_TTL_SECONDS
    }
}

} // verus!
