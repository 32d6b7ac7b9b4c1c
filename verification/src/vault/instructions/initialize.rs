//! Creates the vault's protocol config.

use vstd::prelude::*;

use crate::pubkey::Pubkey;
use crate::vault::constants::{
    DEFAULT_JUPITER_DUST_THRESHOLD_LAMPORTS, DEFAULT_LP_HOLDER_SHARE_BPS,
    DEFAULT_MAX_PRIORITY_FEE_CEILING_LAMPORTS, DEFAULT_MAX_SLIPPAGE_BPS,
    DEFAULT_PROTOCOL_SHARE_BPS, DEFAULT_SALVOR_SHARE_BPS, DEFAULT_TIMELOCK_SECONDS,
    PROTOCOL_SHARE_BPS_CEILING, TOTAL_SHARE_BPS,
};
use crate::vault::errors::GraveVaultError;
use crate::vault::state::protocol_config::shares_sum_to_whole;
use crate::vault::state::ProtocolConfig;

verus! {

/// Instruction arguments; a zero value means "use the default".
#[derive(Clone, Copy, Debug)]
pub struct InitializeParams {
    /// The multisig that will control the vault.
    pub authority: Pubkey,
    pub lp_holder_share_bps: u16,
    pub salvor_share_bps: u16,
    pub protocol_share_bps: u16,
    pub max_priority_fee_ceiling_lamports: u64,
    pub max_slippage_bps: u16,
    pub jupiter_dust_threshold_lamports: u64,
    pub timelock_seconds: i64,
}

/// The accounts initialisation reads.
#[derive(Clone, Copy, Debug)]
pub struct Initialize {
    /// The signer paying for the config account.
    pub payer: Pubkey,
    /// Bump of the config's address.
    pub protocol_config_bump: u8,
}

/// `value`, or `default` where `value` is zero.
pub open spec fn or_default_u16(value: u16, default: u16) -> u16 {
    if value == 0 {
        default
    } else {
        value
    }
}

/// Creates the vault config: zero values take their defaults, the pending
/// authority is cleared and the vault starts unpaused. A protocol share
/// above the Charter ceiling, or shares that do not sum to 10_000 bps, are
/// refused.
pub fn handler(ctx: &Initialize, params: &InitializeParams) -> (res: Result<ProtocolConfig, GraveVaultError>)
    ensures
        ({
            let lp = or_default_u16(params.lp_holder_share_bps, DEFAULT_LP_HOLDER_SHARE_BPS);
            let salvor = or_default_u16(params.salvor_share_bps, DEFAULT_SALVOR_SHARE_BPS);
            let protocol = or_default_u16(params.protocol_share_bps, DEFAULT_PROTOCOL_SHARE_BPS);
            &&& protocol > PROTOCOL_SHARE_BPS_CEILING ==> res == Err::<ProtocolConfig, GraveVaultError>(
                GraveVaultError::ProtocolShareExceedsCeiling,
            )
            &&& protocol <= PROTOCOL_SHARE_BPS_CEILING && !shares_sum_to_whole(lp, salvor, protocol)
                ==> res == Err::<ProtocolConfig, GraveVaultError>(GraveVaultError::InvalidShareSplit)
            &&& res is Ok <==> (protocol <= PROTOCOL_SHARE_BPS_CEILING && shares_sum_to_whole(
                lp,
                salvor,
                protocol,
            ))
            &&& res matches Ok(cfg) ==> {
                &&& cfg.authority == params.authority
                &&& cfg.pending_authority@ == Seq::new(32, |_i: int| 0u8)
                &&& cfg.pending_authority_eta == 0
                &&& cfg.lp_holder_share_bps == lp
                &&& cfg.salvor_share_bps == salvor
                &&& cfg.protocol_share_bps == protocol
                &&& cfg.max_priority_fee_ceiling_lamports == (if params.max_priority_fee_ceiling_lamports == 0 {
                    DEFAULT_MAX_PRIORITY_FEE_CEILING_LAMPORTS
                } else {
                    params.max_priority_fee_ceiling_lamports
                })
                &&& cfg.max_slippage_bps == or_default_u16(params.max_slippage_bps, DEFAULT_MAX_SLIPPAGE_BPS)
                &&& cfg.jupiter_dust_threshold_lamports == (if params.jupiter_dust_threshold_lamports == 0 {
                    DEFAULT_JUPITER_DUST_THRESHOLD_LAMPORTS
                } else {
                    params.jupiter_dust_threshold_lamports
                })
                &&& cfg.timelock_seconds == (if params.timelock_seconds == 0 {
                    DEFAULT_TIMELOCK_SECONDS
                } else {
                    params.timelock_seconds
                })
                &&& !cfg.emergency_paused
                &&& cfg.bump == ctx.protocol_config_bump
                &&& cfg.well_formed()
            }
        }),
{
    let lp_holder_share_bps = if params.lp_holder_share_bps == 0 {
        DEFAULT_LP_HOLDER_SHARE_BPS
    } else {
        params.lp_holder_share_bps
    };
    let salvor_share_bps = if params.salvor_share_bps == 0 {
        DEFAULT_SALVOR_SHARE_BPS
    } else {
        params.salvor_share_bps
    };
    let protocol_share_bps = if params.protocol_share_bps == 0 {
        DEFAULT_PROTOCOL_SHARE_BPS
    } else {
        params.protocol_share_bps
    };

    // Charter ceiling.
    if protocol_share_bps > PROTOCOL_SHARE_BPS_CEILING {
        return Err(GraveVaultError::ProtocolShareExceedsCeiling);
    }
    // The split must be exactly the whole.
    let total: u32 = (lp_holder_share_bps as u32) + (salvor_share_bps as u32) + (
    protocol_share_bps as u32);
    if total != TOTAL_SHARE_BPS {
        return Err(GraveVaultError::InvalidShareSplit);
    }

    Ok(
        ProtocolConfig {
            authority: params.authority,
            pending_authority: Pubkey::zeroed(),
            pending_authority_eta: 0,
            lp_holder_share_bps: lp_holder_share_bps,
            salvor_share_bps: salvor_share_bps,
            protocol_share_bps: protocol_share_bps,
            max_priority_fee_ceiling_lamports: if params.max_priority_fee_ceiling_lamports == 0 {
                DEFAULT_MAX_PRIORITY_FEE_CEILING_LAMPORTS
            } else {
                params.max_priority_fee_ceiling_lamports
            },
            max_slippage_bps: if params.max_slippage_bps == 0 {
                DEFAULT_MAX_SLIPPAGE_BPS
            } else {
                params.max_slippage_bps
            },
            jupiter_dust_threshold_lamports: if params.jupiter_dust_threshold_lamports == 0 {
                DEFAULT_JUPITER_DUST_THRESHOLD_LAMPORTS
            } else {
                params.jupiter_dust_threshold_lamports
            },
            timelock_seconds: if params.timelock_seconds == 0 {
                DEFAULT_TIMELOCK_SECONDS
            } else {
                params.timelock_seconds
            },
            emergency_paused: false,
            bump: ctx.protocol_config_bump,
        },
    )
}

} // verus!
