//! Multisig-only config update (the 72h timelock is the multisig's own).
//! Updates the scanner thresholds, the staleness window and the
//! certificate TTL. The update applies as a whole or not at all.

use vstd::prelude::*;

use crate::pubkey::Pubkey;
use crate::scanner::constants::MIN_CERT_TTL_SECONDS;
use crate::scanner::errors::GraveScannerError;
use crate::scanner::state::ProtocolConfig;

verus! {

/// Instruction arguments: `None` leaves a field as it is.
#[derive(Clone, Copy, Debug)]
pub struct UpdateProtocolConfigParams {
    pub inactivity_seconds: Option<u64>,
    pub price_collapse_bps: Option<u16>,
    pub min_tvl_lamports: Option<u64>,
    pub anchor_staleness_seconds: Option<u64>,
    pub cert_ttl_seconds: Option<i64>,
}

/// The accounts the instruction reads and writes.
#[derive(Clone, Copy, Debug)]
pub struct UpdateProtocolConfig {
    /// The scanner config; its authority must sign.
    pub protocol_config: ProtocolConfig,
    /// The signer.
    pub authority: Pubkey,
}

/// `value` where given, else `current`.
pub open spec fn updated<T>(current: T, value: Option<T>) -> T {
    match value {
        Some(v) => v,
        None => current,
    }
}

/// The error an update meets, in the order of the checks, if any.
pub open spec fn scanner_update_error(
    ctx: UpdateProtocolConfig,
    params: UpdateProtocolConfigParams,
) -> Option<GraveScannerError> {
    if ctx.protocol_config.authority@ != ctx.authority@ {
        Some(GraveScannerError::Unauthorized)
    } else if params.price_collapse_bps matches Some(v) && v > 10_000 {
        Some(GraveScannerError::InvariantViolation)
    } else if params.cert_ttl_seconds matches Some(v) && v < MIN_CERT_TTL_SECONDS {
        Some(GraveScannerError::CertTtlBelowMinimum)
    } else {
        None
    }
}

/// The config after a successful update.
pub open spec fn scanner_config_updated(
    cfg: ProtocolConfig,
    params: UpdateProtocolConfigParams,
) -> ProtocolConfig {
    ProtocolConfig {
        inactivity_seconds: updated(cfg.inactivity_seconds, params.inactivity_seconds),
        price_collapse_bps: updated(cfg.price_collapse_bps, params.price_collapse_bps),
        min_tvl_lamports: updated(cfg.min_tvl_lamports, params.min_tvl_lamports),
        anchor_staleness_seconds: updated(
            cfg.anchor_staleness_seconds,
            params.anchor_staleness_seconds,
        ),
        cert_ttl_seconds: updated(cfg.cert_ttl_seconds, params.cert_ttl_seconds),
        ..cfg
    }
}

/// An update sets each field it is given to the given value, keeps each
/// field it is not given, and leaves the authority, the pending rotation,
/// the dust threshold, the pause switch and the bump alone.
pub proof fn scanner_update_sets_exactly_the_given_fields(
    before: ProtocolConfig,
    params: UpdateProtocolConfigParams,
)
    ensures
        ({
            let after = scanner_config_updated(before, params);
            &&& (params.inactivity_seconds matches Some(v) ==> after.inactivity_seconds == v)
            &&& (params.inactivity_seconds is None ==>
                after.inactivity_seconds == before.inactivity_seconds)
            &&& (params.price_collapse_bps matches Some(v) ==> after.price_collapse_bps == v)
            &&& (params.price_collapse_bps is None ==>
                after.price_collapse_bps == before.price_collapse_bps)
            &&& (params.min_tvl_lamports matches Some(v) ==> after.min_tvl_lamports == v)
            &&& (params.min_tvl_lamports is None ==>
                after.min_tvl_lamports == before.min_tvl_lamports)
            &&& (params.anchor_staleness_seconds matches Some(v) ==>
                after.anchor_staleness_seconds == v)
            &&& (params.anchor_staleness_seconds is None ==>
                after.anchor_staleness_seconds == before.anchor_staleness_seconds)
            &&& (params.cert_ttl_seconds matches Some(v) ==> after.cert_ttl_seconds == v)
            &&& (params.cert_ttl_seconds is None ==>
                after.cert_ttl_seconds == before.cert_ttl_seconds)
            &&& after.authority == before.authority
            &&& after.pending_authority == before.pending_authority
            &&& after.pending_authority_eta == before.pending_authority_eta
            &&& after.lp_burn_dust_threshold == before.lp_burn_dust_threshold
            &&& after.paused == before.paused
            &&& after.bump == before.bump
        }),
{
}

/// Applies the update when the signer is the config's authority, a new
/// price-collapse threshold is at most 10_000 bps and a new certificate TTL
/// is at least `MIN_CERT_TTL_SECONDS`; otherwise nothing changes.
pub fn handler(ctx: &mut UpdateProtocolConfig, params: &UpdateProtocolConfigParams) -> (res: Result<
    (),
    GraveScannerError,
>)
    ensures
        match scanner_update_error(*old(ctx), *params) {
            Some(e) => res == Err::<(), GraveScannerError>(e) && *final(ctx) == *old(ctx),
            None => res is Ok && final(ctx).protocol_config == scanner_config_updated(
                old(ctx).protocol_config,
                *params,
            ) && final(ctx).authority == old(ctx).authority,
        },
        old(ctx).protocol_config.well_formed() ==> final(ctx).protocol_config.well_formed(),
        res is Ok <==> (old(ctx).protocol_config.authority@ == old(ctx).authority@
            && !(params.price_collapse_bps matches Some(v) && v > 10_000)
            && !(params.cert_ttl_seconds matches Some(v) && v < MIN_CERT_TTL_SECONDS)),
        res is Err ==> *final(ctx) == *old(ctx),
        res is Ok ==> ({
            let before = old(ctx).protocol_config;
            let after = final(ctx).protocol_config;
            &&& (params.inactivity_seconds matches Some(v) ==> after.inactivity_seconds == v)
            &&& (params.inactivity_seconds is None ==>
                after.inactivity_seconds == before.inactivity_seconds)
            &&& (params.price_collapse_bps matches Some(v) ==> after.price_collapse_bps == v)
            &&& (params.price_collapse_bps is None ==>
                after.price_collapse_bps == before.price_collapse_bps)
            &&& (params.min_tvl_lamports matches Some(v) ==> after.min_tvl_lamports == v)
            &&& (params.min_tvl_lamports is None ==>
                after.min_tvl_lamports == before.min_tvl_lamports)
            &&& (params.anchor_staleness_seconds matches Some(v) ==>
                after.anchor_staleness_seconds == v)
            &&& (params.anchor_staleness_seconds is None ==>
                after.anchor_staleness_seconds == before.anchor_staleness_seconds)
            &&& (params.cert_ttl_seconds matches Some(v) ==> after.cert_ttl_seconds == v)
            &&& (params.cert_ttl_seconds is None ==>
                after.cert_ttl_seconds == before.cert_ttl_seconds)
            &&& after.authority == before.authority
            &&& after.pending_authority == before.pending_authority
            &&& after.pending_authority_eta == before.pending_authority_eta
            &&& after.lp_burn_dust_threshold == before.lp_burn_dust_threshold
            &&& after.paused == before.paused
            &&& after.bump == before.bump
            &&& final(ctx).authority == old(ctx).authority
        }),
{
    if !ctx.protocol_config.authority.same_as(&ctx.authority) {
        return Err(GraveScannerError::Unauthorized);
    }
    let mut cfg = ctx.protocol_config;
    if let Some(v) = params.inactivity_seconds {
        cfg.inactivity_seconds = v;
    }
    if let Some(v) = params.price_collapse_bps {
        if v > 10_000 {
            return Err(GraveScannerError::InvariantViolation);
        }
        cfg.price_collapse_bps = v;
    }
    if let Some(v) = params.min_tvl_lamports {
        cfg.min_tvl_lamports = v;
    }
    if let Some(v) = params.anchor_staleness_seconds {
        cfg.anchor_staleness_seconds = v;
    }
    if let Some(v) = params.cert_ttl_seconds {
        if v < MIN_CERT_TTL_SECONDS {
            return Err(GraveScannerError::CertTtlBelowMinimum);
        }
        cfg.cert_ttl_seconds = v;
    }
    ctx.protocol_config = cfg;
    Ok(())
}

} // verus!
