//! Creates the scanner's protocol config.

use vstd::prelude::*;

use crate::pubkey::Pubkey;
use crate::scanner::constants::{
    DEFAULT_ANCHOR_STALENESS_SECONDS, DEFAULT_CERT_TTL_SECONDS, DEFAULT_INACTIVITY_SECONDS,
    DEFAULT_LP_BURN_DUST_THRESHOLD, DEFAULT_MIN_TVL_LAMPORTS, DEFAULT_PRICE_COLLAPSE_BPS,
    MIN_CERT_TTL_SECONDS,
};
use crate::scanner::errors::GraveScannerError;
use crate::scanner::state::ProtocolConfig;

verus! {

/// Instruction arguments; a zero threshold means "use the default".
#[derive(Clone, Copy, Debug)]
pub struct InitializeParams {
    /// The multisig that will control the scanner.
    pub authority: Pubkey,
    pub inactivity_seconds: u64,
    pub price_collapse_bps: u16,
    pub min_tvl_lamports: u64,
    pub anchor_staleness_seconds: u64,
    pub lp_burn_dust_threshold: u64,
    /// Certificate TTL in seconds; 0 takes the default, any other value
    /// below `MIN_CERT_TTL_SECONDS` is refused.
    pub cert_ttl_seconds: i64,
}

/// The accounts initialisation reads.
#[derive(Clone, Copy, Debug)]
pub struct Initialize {
    /// The signer paying for the config account.
    pub payer: Pubkey,
    /// Bump of the config's address.
    pub protocol_config_bump: u8,
}

/// `value`, or `default` where `value` is zero.
pub open spec fn or_default_u64(value: u64, default: u64) -> u64 {
    if value == 0 {
        default
    } else {
        value
    }
}

/// Creates the scanner config: zero thresholds take their defaults, the
/// pending authority is cleared and the scanner starts unpaused. A nonzero
/// certificate TTL below the floor is refused.
pub fn handler(ctx: &Initialize, params: &InitializeParams) -> (res: Result<ProtocolConfig, GraveScannerError>)
    ensures
        res is Err <==> (params.cert_ttl_seconds != 0 && params.cert_ttl_seconds
            < MIN_CERT_TTL_SECONDS),
        res is Err ==> res == Err::<ProtocolConfig, GraveScannerError>(GraveScannerError::CertTtlBelowMinimum),
        res matches Ok(cfg) ==> {
            &&& cfg.authority == params.authority
            &&& cfg.pending_authority@ == Seq::new(32, |_i: int| 0u8)
            &&& cfg.pending_authority_eta == 0
            &&& cfg.inactivity_seconds == or_default_u64(params.inactivity_seconds, DEFAULT_INACTIVITY_SECONDS)
            &&& cfg.price_collapse_bps == (if params.price_collapse_bps == 0 {
                DEFAULT_PRICE_COLLAPSE_BPS
            } else {
                params.price_collapse_bps
            })
            &&& cfg.min_tvl_lamports == or_default_u64(params.min_tvl_lamports, DEFAULT_MIN_TVL_LAMPORTS)
            &&& cfg.anchor_staleness_seconds == or_default_u64(
                params.anchor_staleness_seconds,
                DEFAULT_ANCHOR_STALENESS_SECONDS,
            )
            &&& cfg.lp_burn_dust_threshold == or_default_u64(
                params.lp_burn_dust_threshold,
                DEFAULT_LP_BURN_DUST_THRESHOLD,
            )
            &&& cfg.cert_ttl_seconds == (if params.cert_ttl_seconds == 0 {
                DEFAULT_CERT_TTL_SECONDS
            } else {
                params.cert_ttl_seconds
            })
            &&& !cfg.paused
            &&& cfg.bump == ctx.protocol_config_bump
            &&& cfg.well_formed()
        },
{
    let cert_ttl_seconds = if params.cert_ttl_seconds == 0 {
        DEFAULT_CERT_TTL_SECONDS
    } else {
        params.cert_ttl_seconds
    };
    if cert_ttl_seconds < MIN_CERT_TTL_SECONDS {
        return Err(GraveScannerError::CertTtlBelowMinimum);
    }
    Ok(
        ProtocolConfig {
            authority: params.authority,
            pending_authority: Pubkey::zeroed(),
            pending_authority_eta: 0,
            inactivity_seconds: if params.inactivity_seconds == 0 {
                DEFAULT_INACTIVITY_SECONDS
            } else {
                params.inactivity_seconds
            },
            price_collapse_bps: if params.price_collapse_bps == 0 {
                DEFAULT_PRICE_COLLAPSE_BPS
            } else {
                params.price_collapse_bps
            },
            min_tvl_lamports: if params.min_tvl_lamports == 0 {
                DEFAULT_MIN_TVL_LAMPORTS
            } else {
                params.min_tvl_lamports
            },
            anchor_staleness_seconds: if params.anchor_staleness_seconds == 0 {
                DEFAULT_ANCHOR_STALENESS_SECONDS
            } else {
                params.anchor_staleness_seconds
            },
            lp_burn_dust_threshold: if params.lp_burn_dust_threshold == 0 {
                DEFAULT_LP_BURN_DUST_THRESHOLD
            } else {
                params.lp_burn_dust_threshold
            },
            cert_ttl_seconds: cert_ttl_seconds,
            paused: false,
            bump: ctx.protocol_config_bump,
        },
    )
}

} // verus!
