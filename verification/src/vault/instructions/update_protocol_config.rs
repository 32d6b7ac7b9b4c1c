//! Multisig-only config update (the 72h timelock is the multisig's own).
//! The protocol share can never be raised above the Charter ceiling and
//! the split must remain exactly 10_000 bps. The update applies as a whole
//! or not at all.

use vstd::prelude::*;

use crate::pubkey::Pubkey;
use crate::vault::constants::{PROTOCOL_SHARE_BPS_CEILING, TOTAL_SHARE_BPS};
use crate::vault::errors::GraveVaultError;
use crate::vault::state::protocol_config::shares_sum_to_whole;
use crate::vault::state::ProtocolConfig;

verus! {

/// Instruction arguments: `None` leaves a field as it is.
#[derive(Clone, Copy, Debug)]
pub struct UpdateProtocolConfigParams {
    pub lp_holder_share_bps: Option<u16>,
    pub salvor_share_bps: Option<u16>,
    pub protocol_share_bps: Option<u16>,
    pub max_priority_fee_ceiling_lamports: Option<u64>,
    pub max_slippage_bps: Option<u16>,
    pub jupiter_dust_threshold_lamports: Option<u64>,
    pub timelock_seconds: Option<i64>,
}

/// The accounts the instruction reads and writes.
#[derive(Clone, Copy, Debug)]
pub struct UpdateProtocolConfig {
    /// The vault config; its authority must sign.
    pub protocol_config: ProtocolConfig,
    /// The signer.
    pub authority: Pubkey,
}

/// `value` where given, else `current`.
pub open spec fn updated<T>(current: T, value: Option<T>) -> T {
    match value {
        Some(v) => v,
        None => current,
    }
}

/// The config after a successful update.
pub open spec fn vault_config_updated(
    cfg: ProtocolConfig,
    params: UpdateProtocolConfigParams,
) -> ProtocolConfig {
    ProtocolConfig {
        lp_holder_share_bps: updated(cfg.lp_holder_share_bps, params.lp_holder_share_bps),
        salvor_share_bps: updated(cfg.salvor_share_bps, params.salvor_share_bps),
        protocol_share_bps: updated(cfg.protocol_share_bps, params.protocol_share_bps),
        max_priority_fee_ceiling_lamports: updated(
            cfg.max_priority_fee_ceiling_lamports,
            params.max_priority_fee_ceiling_lamports,
        ),
        max_slippage_bps: updated(cfg.max_slippage_bps, params.max_slippage_bps),
        jupiter_dust_threshold_lamports: updated(
            cfg.jupiter_dust_threshold_lamports,
            params.jupiter_dust_threshold_lamports,
        ),
        timelock_seconds: updated(cfg.timelock_seconds, params.timelock_seconds),
        ..cfg
    }
}

/// The error an update meets, in the order of the checks, if any.
pub open spec fn vault_update_error(
    ctx: UpdateProtocolConfig,
    params: UpdateProtocolConfigParams,
) -> Option<GraveVaultError> {
    let new_cfg = vault_config_updated(ctx.protocol_config, params);
    if ctx.protocol_config.authority@ != ctx.authority@ {
        Some(GraveVaultError::Unauthorized)
    } else if params.protocol_share_bps matches Some(v) && v > PROTOCOL_SHARE_BPS_CEILING {
        Some(GraveVaultError::ProtocolShareExceedsCeiling)
    } else if !shares_sum_to_whole(
        new_cfg.lp_holder_share_bps,
        new_cfg.salvor_share_bps,
        new_cfg.protocol_share_bps,
    ) {
        Some(GraveVaultError::InvalidShareSplit)
    } else if params.max_slippage_bps matches Some(v) && v > 10_000 {
        Some(GraveVaultError::SlippageExceeded)
    } else {
        None
    }
}

/// An update sets each field it is given to the given value, keeps each
/// field it is not given, and leaves the authority, the pending rotation,
/// the pause switch and the bump alone.
pub proof fn vault_update_sets_exactly_the_given_fields(
    before: ProtocolConfig,
    params: UpdateProtocolConfigParams,
)
    ensures
        ({
            let after = vault_config_updated(before, params);
            &&& (params.lp_holder_share_bps matches Some(v) ==> after.lp_holder_share_bps == v)
            &&& (params.lp_holder_share_bps is None ==>
                after.lp_holder_share_bps == before.lp_holder_share_bps)
            &&& (params.salvor_share_bps matches Some(v) ==> after.salvor_share_bps == v)
            &&& (params.salvor_share_bps is None ==>
                after.salvor_share_bps == before.salvor_share_bps)
            &&& (params.protocol_share_bps matches Some(v) ==> after.protocol_share_bps == v)
            &&& (params.protocol_share_bps is None ==>
                after.protocol_share_bps == before.protocol_share_bps)
            &&& (params.max_priority_fee_ceiling_lamports matches Some(v) ==>
                after.max_priority_fee_ceiling_lamports == v)
            &&& (params.max_priority_fee_ceiling_lamports is None ==>
                after.max_priority_fee_ceiling_lamports == before.max_priority_fee_ceiling_lamports)
            &&& (params.max_slippage_bps matches Some(v) ==> after.max_slippage_bps == v)
            &&& (params.max_slippage_bps is None ==>
                after.max_slippage_bps == before.max_slippage_bps)
            &&& (params.jupiter_dust_threshold_lamports matches Some(v) ==>
                after.jupiter_dust_threshold_lamports == v)
            &&& (params.jupiter_dust_threshold_lamports is None ==>
                after.jupiter_dust_threshold_lamports == before.jupiter_dust_threshold_lamports)
            &&& (params.timelock_seconds matches Some(v) ==> after.timelock_seconds == v)
            &&& (params.timelock_seconds is None ==>
                after.timelock_seconds == before.timelock_seconds)
            &&& after.authority == before.authority
            &&& after.pending_authority == before.pending_authority
            &&& after.pending_authority_eta == before.pending_authority_eta
            &&& after.emergency_paused == before.emergency_paused
            &&& after.bump == before.bump
        }),
{
}

/// Applies the update when the signer is the config's authority, a new
/// protocol share is within the Charter ceiling, the resulting shares sum
/// to 10_000 bps and a new slippage bound is at most 10_000 bps; otherwise
/// nothing changes.
pub fn handler(ctx: &mut UpdateProtocolConfig, params: &UpdateProtocolConfigParams) -> (res: Result<
    (),
    GraveVaultError,
>)
    ensures
        match vault_update_error(*old(ctx), *params) {
            Some(e) => res == Err::<(), GraveVaultError>(e) && *final(ctx) == *old(ctx),
            None => res is Ok && final(ctx).protocol_config == vault_config_updated(
                old(ctx).protocol_config,
                *params,
            ) && final(ctx).authority == old(ctx).authority,
        },
        old(ctx).protocol_config.well_formed() ==> final(ctx).protocol_config.well_formed(),
        res is Ok <==> ({
            let before = old(ctx).protocol_config;
            let lp = match params.lp_holder_share_bps {
                Some(v) => v,
                None => before.lp_holder_share_bps,
            };
            let salvor = match params.salvor_share_bps {
                Some(v) => v,
                None => before.salvor_share_bps,
            };
            let protocol = match params.protocol_share_bps {
                Some(v) => v,
                None => before.protocol_share_bps,
            };
            &&& before.authority@ == old(ctx).authority@
            &&& !(params.protocol_share_bps matches Some(v) && v > PROTOCOL_SHARE_BPS_CEILING)
            &&& lp + salvor + protocol == TOTAL_SHARE_BPS
            &&& !(params.max_slippage_bps matches Some(v) && v > 10_000)
        }),
        res is Err ==> *final(ctx) == *old(ctx),
        res is Ok ==> ({
            let before = old(ctx).protocol_config;
            let after = final(ctx).protocol_config;
            &&& (params.lp_holder_share_bps matches Some(v) ==> after.lp_holder_share_bps == v)
            &&& (params.lp_holder_share_bps is None ==>
                after.lp_holder_share_bps == before.lp_holder_share_bps)
            &&& (params.salvor_share_bps matches Some(v) ==> after.salvor_share_bps == v)
            &&& (params.salvor_share_bps is None ==>
                after.salvor_share_bps == before.salvor_share_bps)
            &&& (params.protocol_share_bps matches Some(v) ==> after.protocol_share_bps == v)
            &&& (params.protocol_share_bps is None ==>
                after.protocol_share_bps == before.protocol_share_bps)
            &&& (params.max_priority_fee_ceiling_lamports matches Some(v) ==>
                after.max_priority_fee_ceiling_lamports == v)
            &&& (params.max_priority_fee_ceiling_lamports is None ==>
                after.max_priority_fee_ceiling_lamports == before.max_priority_fee_ceiling_lamports)
            &&& (params.max_slippage_bps matches Some(v) ==> after.max_slippage_bps == v)
            &&& (params.max_slippage_bps is None ==>
                after.max_slippage_bps == before.max_slippage_bps)
            &&& (params.jupiter_dust_threshold_lamports matches Some(v) ==>
                after.jupiter_dust_threshold_lamports == v)
            &&& (params.jupiter_dust_threshold_lamports is None ==>
                after.jupiter_dust_threshold_lamports == before.jupiter_dust_threshold_lamports)
            &&& (params.timelock_seconds matches Some(v) ==> after.timelock_seconds == v)
            &&& (params.timelock_seconds is None ==>
                after.timelock_seconds == before.timelock_seconds)
            &&& after.authority == before.authority
            &&& after.pending_authority == before.pending_authority
            &&& after.pending_authority_eta == before.pending_authority_eta
            &&& after.emergency_paused == before.emergency_paused
            &&& after.bump == before.bump
            &&& after.lp_holder_share_bps + after.salvor_share_bps + after.protocol_share_bps
                == TOTAL_SHARE_BPS
            &&& (params.protocol_share_bps is Some ==> after.protocol_share_bps
                <= PROTOCOL_SHARE_BPS_CEILING)
            &&& final(ctx).authority == old(ctx).authority
        }),
{
    if !ctx.protocol_config.authority.same_as(&ctx.authority) {
        return Err(GraveVaultError::Unauthorized);
    }
    let mut cfg = ctx.protocol_config;
    if let Some(v) = params.lp_holder_share_bps {
        cfg.lp_holder_share_bps = v;
    }
    if let Some(v) = params.salvor_share_bps {
        cfg.salvor_share_bps = v;
    }
    if let Some(v) = params.protocol_share_bps {
        if v > PROTOCOL_SHARE_BPS_CEILING {
            return Err(GraveVaultError::ProtocolShareExceedsCeiling);
        }
        cfg.protocol_share_bps = v;
    }
    let total: u32 = (cfg.lp_holder_share_bps as u32) + (cfg.salvor_share_bps as u32) + (
    cfg.protocol_share_bps as u32);
    if total != TOTAL_SHARE_BPS {
        return Err(GraveVaultError::InvalidShareSplit);
    }
    if let Some(v) = params.max_priority_fee_ceiling_lamports {
        cfg.max_priority_fee_ceiling_lamports = v;
    }
    if let Some(v) = params.max_slippage_bps {
        if v > 10_000 {
            return Err(GraveVaultError::SlippageExceeded);
        }
        cfg.max_slippage_bps = v;
    }
    if let Some(v) = params.jupiter_dust_threshold_lamports {
        cfg.jupiter_dust_threshold_lamports = v;
    }
    if let Some(v) = params.timelock_seconds {
        cfg.timelock_seconds = v;
    }
    ctx.protocol_config = cfg;
    Ok(())
}

} // verus!
