//! Scanner thresholds, defaults and account seeds.

use vstd::prelude::*;

verus! {

/// Default minimum trading inactivity for Criterion 1: 90 days, in seconds.
pub const DEFAULT_INACTIVITY_SECONDS: u64 = 90 * 24 * 60 * 60;

/// Default minimum price collapse from launch for Criterion 2: 99% in basis
/// points (10_000 = 100%).
pub const DEFAULT_PRICE_COLLAPSE_BPS: u16 = 9_900;

/// Default minimum residual TVL in lamports for Criterion 3: 0.5 SOL.
pub const DEFAULT_MIN_TVL_LAMPORTS: u64 = 500_000_000;

/// Default LP-supply dust level for Criterion 4: a pool whose outstanding LP
/// supply is at or below this many base units counts as burned.
pub const DEFAULT_LP_BURN_DUST_THRESHOLD: u64 = 1_000;

/// Minimum number of epochs between the Phase 1 anchor and the Phase 2
/// certificate (Criterion 6).
pub const MIN_EPOCH_CONFIRMATION: u64 = 2;

/// Default staleness window for uncertified eligibility anchors: 14 days,
/// in seconds. After it, anyone may sweep the anchor to reclaim its rent.
pub const DEFAULT_ANCHOR_STALENESS_SECONDS: u64 = 14 * 24 * 60 * 60;

/// Default eligibility-certificate TTL: one hour, in seconds.
pub const DEFAULT_CERT_TTL_SECONDS: i64 = 60 * 60;

/// Former name of `DEFAULT_CERT_TTL_SECONDS`, kept for existing fixtures.
pub const ELIGIBILITY_CERT_TTL_SECONDS: i64 = DEFAULT_CERT_TTL_SECONDS;

/// Hard floor on the certificate TTL (ten minutes). Initialisation and
/// config updates refuse anything shorter.
pub const MIN_CERT_TTL_SECONDS: i64 = 600;

/// Approximate epoch length in seconds; used to turn the staleness window
/// into a whole number of epochs.
pub const APPROX_EPOCH_DURATION_SECONDS: u64 = 2 * 24 * 60 * 60;

/// Seed of the scanner's protocol-config account (its UTF-8 bytes are the seed).
pub const PROTOCOL_CONFIG_SEED: &'static str = "protocol_config";

/// Seed of an eligibility-anchor account (its UTF-8 bytes are the seed).
pub const ELIGIBILITY_ANCHOR_SEED: &'static str = "eligibility_anchor";

/// Seed of an eligibility-certificate account (its UTF-8 bytes are the seed).
pub const ELIGIBILITY_CERT_SEED: &'static str = "eligibility_cert";

/// Seed of a launch-price account (its UTF-8 bytes are the seed).
pub const LAUNCH_PRICE_SEED: &'static str = "launch_price";

} // verus!
