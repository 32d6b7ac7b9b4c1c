//! Vault Charter invariants, defaults and account seeds.

use vstd::prelude::*;

verus! {

/// Charter ceiling of the protocol share, in bps (20%). Governance may
/// lower the runtime share but never raise it above this.
pub const PROTOCOL_SHARE_BPS_CEILING: u16 = 2_000;

/// Default protocol share at launch (20%).
pub const DEFAULT_PROTOCOL_SHARE_BPS: u16 = 2_000;

/// Default original-LP share at launch (40%).
pub const DEFAULT_LP_HOLDER_SHARE_BPS: u16 = 4_000;

/// Default salvor share at launch (40%).
pub const DEFAULT_SALVOR_SHARE_BPS: u16 = 4_000;

/// The whole of the proceeds in bps; the three shares must sum to it.
pub const TOTAL_SHARE_BPS: u32 = 10_000;

/// Default Charter ceiling on the priority fee (lamports per compute unit).
pub const DEFAULT_MAX_PRIORITY_FEE_CEILING_LAMPORTS: u64 = 1_000_000_000;

/// Default maximum slippage of the swap leg, in bps (3%).
pub const DEFAULT_MAX_SLIPPAGE_BPS: u16 = 300;

/// Default swap dust threshold in lamports: below it the swap is skipped.
pub const DEFAULT_JUPITER_DUST_THRESHOLD_LAMPORTS: u64 = 666_666;

/// Default timelock on parameter changes: 72 hours, in seconds.
pub const DEFAULT_TIMELOCK_SECONDS: i64 = 72 * 60 * 60;

/// Seed of the vault's protocol-config account (its UTF-8 bytes are the seed).
pub const PROTOCOL_CONFIG_SEED: &'static str = "protocol_config";

/// Seed of a pool-registry account (its UTF-8 bytes are the seed).
pub const POOL_REGISTRY_SEED: &'static str = "pool_registry";

/// Seed of an LP-holder pool vault (its UTF-8 bytes are the seed).
pub const LP_HOLDER_POOL_SEED: &'static str = "lp_holder_pool";

/// Seed of a salvage receipt (its UTF-8 bytes are the seed).
pub const SALVAGE_RECEIPT_SEED: &'static str = "salvage_receipt";

/// Seed of a claim record (its UTF-8 bytes are the seed).
pub const CLAIM_RECORD_SEED: &'static str = "claim_record";

/// Seed of the protocol treasury (its UTF-8 bytes are the seed).
pub const PROTOCOL_TREASURY_SEED: &'static str = "protocol_treasury";

/// Seed of a scanner eligibility certificate, read across programs (its
/// UTF-8 bytes are the seed).
pub const ELIGIBILITY_CERT_SEED: &'static str = "eligibility_cert";

/// The default split is the Charter's 40 / 40 / 20 and respects the ceiling.
pub proof fn default_split_is_charter_split()
    ensures
        DEFAULT_LP_HOLDER_SHARE_BPS + DEFAULT_SALVOR_SHARE_BPS + DEFAULT_PROTOCOL_SHARE_BPS
            == TOTAL_SHARE_BPS,
        DEFAULT_PROTOCOL_SHARE_BPS <= PROTOCOL_SHARE_BPS_CEILING,
{
}

} // verus!
