//! The salvage settlement instruction, up to its pre-flight gates and the
//! records it creates.
//!
//! Gates, in order: the vault is not paused; the scanner certificate is
//! fresh; it certifies all six criteria; it is bound to this pool and AMM;
//! the pool account is this pool. Then the LP-holder vault is created on
//! the first salvage of the pool, and the pool registry (locking in the
//! salvor's LP snapshot) and the salvage receipt are written. Removing the
//! liquidity, swapping and the 40/40/20 distribution are not wired yet: the
//! receipt's amounts and the LP-holder total are zero.

use vstd::prelude::*;

use crate::clock::Clock;
use crate::pubkey::Pubkey;
use crate::scanner::state::EligibilityCert;
use crate::vault::errors::GraveVaultError;
use crate::vault::state::{PoolRegistry, ProtocolConfig, SalvageReceipt};

verus! {

/// The certificate bitmap with all six derelict-pool criteria; must equal
/// the scanner's `ALL_CRITERIA_MASK`.
pub const ALL_CRITERIA_MASK: u8 = 0x3F;

/// Instruction arguments.
#[derive(Clone, Copy, Debug)]
pub struct SalvagePoolParams {
    pub amm_program_id: Pubkey,
    pub pool_address: Pubkey,
    /// Merkle root of the off-chain LP-holder snapshot.
    pub lp_snapshot_merkle_root: [u8; 32],
    /// LP total supply at the snapshot.
    pub lp_total_supply_at_snapshot: u64,
    /// Minimum acceptable quote output (recorded, not yet enforced: nothing
    /// is swapped yet).
    pub min_quote_output_lamports: u64,
}

/// The accounts a salvage reads.
#[derive(Clone, Copy, Debug)]
pub struct SalvagePool {
    /// The vault config.
    pub protocol_config: ProtocolConfig,
    /// The scanner certificate for the pool.
    pub eligibility_cert: EligibilityCert,
    /// The signer performing the salvage.
    pub salvor: Pubkey,
    /// Address of the pool account passed in.
    pub pool: Pubkey,
    /// Current lamports of the pool's LP-holder vault (0 before it exists).
    pub lp_holder_pool_vault_lamports: u64,
    /// Bump of the registry's address.
    pub pool_registry_bump: u8,
    /// Bump of the receipt's address.
    pub salvage_receipt_bump: u8,
}

/// Event mirroring the pool-level outcome of a salvage.
#[derive(Clone, Copy, Debug)]
pub struct PoolSalvaged {
    pub amm_program_id: Pubkey,
    pub pool_address: Pubkey,
    pub salvor: Pubkey,
    pub lp_holder_amount: u64,
    pub salvor_amount: u64,
    pub protocol_amount: u64,
}

/// Event emitted on the final state transition of a salvage.
#[derive(Clone, Copy, Debug)]
pub struct SalvageCompleted {
    pub pool_address: Pubkey,
    pub salvor: Pubkey,
    pub total_proceeds_lamports: u64,
}

/// What a salvage writes and emits.
#[derive(Clone, Copy, Debug)]
pub struct SalvageOutcome {
    /// The new pool registry.
    pub pool_registry: PoolRegistry,
    /// The new salvage receipt.
    pub salvage_receipt: SalvageReceipt,
    /// Whether the LP-holder vault must be created (rent-exempt, empty,
    /// system-owned) because it holds no lamports yet.
    pub create_lp_holder_pool_vault: bool,
    /// The `PoolSalvaged` event.
    pub pool_salvaged: PoolSalvaged,
    /// The `SalvageCompleted` event.
    pub salvage_completed: SalvageCompleted,
}

/// The first gate a salvage fails, if any.
pub open spec fn salvage_gate_error(
    ctx: SalvagePool,
    params: SalvagePoolParams,
    clock: Clock,
) -> Option<GraveVaultError> {
    let cert = ctx.eligibility_cert;
    if ctx.protocol_config.emergency_paused {
        Some(GraveVaultError::ProtocolPaused)
    } else if clock.unix_timestamp >= cert.expires_at {
        Some(GraveVaultError::EligibilityCertExpired)
    } else if cert.criteria_bitmap != ALL_CRITERIA_MASK {
        Some(GraveVaultError::InvalidEligibilityCert)
    } else if cert.amm_program_id@ != params.amm_program_id@ {
        Some(GraveVaultError::InvalidEligibilityCert)
    } else if cert.pool_address@ != params.pool_address@ {
        Some(GraveVaultError::InvalidEligibilityCert)
    } else if ctx.pool@ != params.pool_address@ {
        Some(GraveVaultError::PreflightFailed)
    } else {
        None
    }
}

/// Runs the pre-flight gates and, when all pass, builds the registry, the
/// receipt and the two events.
pub fn handler(ctx: &SalvagePool, params: &SalvagePoolParams, clock: &Clock) -> (res: Result<
    SalvageOutcome,
    GraveVaultError,
>)
    ensures
        match salvage_gate_error(*ctx, *params, *clock) {
            Some(e) => res == Err::<SalvageOutcome, GraveVaultError>(e),
            None => res is Ok,
        },
        res is Ok <==> ({
            let cert = ctx.eligibility_cert;
            &&& !ctx.protocol_config.emergency_paused
            &&& clock.unix_timestamp < cert.expires_at
            &&& cert.criteria_bitmap == ALL_CRITERIA_MASK
            &&& cert.amm_program_id@ == params.amm_program_id@
            &&& cert.pool_address@ == params.pool_address@
            &&& ctx.pool@ == params.pool_address@
        }),
        res matches Ok(out) ==> {
            let registry = out.pool_registry;
            let receipt = out.salvage_receipt;
            &&& !ctx.protocol_config.emergency_paused
            &&& clock.unix_timestamp < ctx.eligibility_cert.expires_at
            &&& ctx.eligibility_cert.criteria_bitmap == ALL_CRITERIA_MASK
            &&& registry.amm_program_id == params.amm_program_id
            &&& registry.pool_address == params.pool_address
            &&& registry.salvor == ctx.salvor
            &&& registry.lp_snapshot_merkle_root == params.lp_snapshot_merkle_root
            &&& registry.lp_total_supply_at_snapshot == params.lp_total_supply_at_snapshot
            &&& registry.lp_holder_pool_total_lamports == 0
            &&& registry.lp_holder_pool_claimed_lamports == 0
            &&& registry.salvaged_at_slot == clock.slot
            &&& registry.salvaged_at_ts == clock.unix_timestamp
            &&& registry.bump == ctx.pool_registry_bump
            &&& registry.well_formed()
            &&& receipt.pool_address == params.pool_address
            &&& receipt.salvor == ctx.salvor
            &&& receipt.lp_holder_amount_lamports == 0
            &&& receipt.salvor_amount_lamports == 0
            &&& receipt.protocol_amount_lamports == 0
            &&& receipt.total_proceeds_lamports == 0
            &&& receipt.issued_at_slot == clock.slot
            &&& receipt.issued_at_ts == clock.unix_timestamp
            &&& receipt.bump == ctx.salvage_receipt_bump
            &&& out.create_lp_holder_pool_vault == (ctx.lp_holder_pool_vault_lamports == 0)
            &&& out.pool_salvaged == (PoolSalvaged {
                amm_program_id: params.amm_program_id,
                pool_address: params.pool_address,
                salvor: ctx.salvor,
                lp_holder_amount: 0,
                salvor_amount: 0,
                protocol_amount: 0,
            })
            &&& out.salvage_completed == (SalvageCompleted {
                pool_address: params.pool_address,
                salvor: ctx.salvor,
                total_proceeds_lamports: 0,
            })
        },
{
    let cfg = &ctx.protocol_config;
    // Gate 1: emergency pause (claims stay open; only salvage is gated).
    if cfg.emergency_paused {
        return Err(GraveVaultError::ProtocolPaused);
    }
    let cert = &ctx.eligibility_cert;
    // Gate 2: certificate freshness.
    if cert.is_expired(clock.unix_timestamp) {
        return Err(GraveVaultError::EligibilityCertExpired);
    }
    // Gate 3: all six criteria certified.
    if cert.criteria_bitmap != ALL_CRITERIA_MASK {
        return Err(GraveVaultError::InvalidEligibilityCert);
    }
    // Gate 4: the certificate names this AMM and this pool.
    if !cert.amm_program_id.same_as(&params.amm_program_id) {
        return Err(GraveVaultError::InvalidEligibilityCert);
    }
    if !cert.pool_address.same_as(&params.pool_address) {
        return Err(GraveVaultError::InvalidEligibilityCert);
    }
    // Gate 5: the pool account is this pool.
    if !ctx.pool.same_as(&params.pool_address) {
        return Err(GraveVaultError::PreflightFailed);
    }

    let create_lp_holder_pool_vault = ctx.lp_holder_pool_vault_lamports == 0;

    let pool_registry = PoolRegistry {
        amm_program_id: params.amm_program_id,
        pool_address: params.pool_address,
        salvor: ctx.salvor,
        lp_snapshot_merkle_root: params.lp_snapshot_merkle_root,
        lp_total_supply_at_snapshot: params.lp_total_supply_at_snapshot,
        lp_holder_pool_total_lamports: 0,
        lp_holder_pool_claimed_lamports: 0,
        salvaged_at_slot: clock.slot,
        salvaged_at_ts: clock.unix_timestamp,
        bump: ctx.pool_registry_bump,
    };
    let salvage_receipt = SalvageReceipt {
        pool_address: params.pool_address,
        salvor: ctx.salvor,
        lp_holder_amount_lamports: 0,
        salvor_amount_lamports: 0,
        protocol_amount_lamports: 0,
        total_proceeds_lamports: 0,
        issued_at_slot: clock.slot,
        issued_at_ts: clock.unix_timestamp,
        bump: ctx.salvage_receipt_bump,
    };
    let pool_salvaged = PoolSalvaged {
        amm_program_id: params.amm_program_id,
        pool_address: params.pool_address,
        salvor: ctx.salvor,
        lp_holder_amount: salvage_receipt.lp_holder_amount_lamports,
        salvor_amount: salvage_receipt.salvor_amount_lamports,
        protocol_amount: salvage_receipt.protocol_amount_lamports,
    };
    let salvage_completed = SalvageCompleted {
        pool_address: params.pool_address,
        salvor: ctx.salvor,
        total_proceeds_lamports: salvage_receipt.total_proceeds_lamports,
    };
    Ok(
        SalvageOutcome {
            pool_registry,
            salvage_receipt,
            create_lp_holder_pool_vault,
            pool_salvaged,
            salvage_completed,
        },
    )
}

} // verus!
