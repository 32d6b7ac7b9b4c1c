//! Phase 1 of pool evaluation: checks all six criteria and writes an
//! eligibility anchor stamped with the current epoch. Phase 2 may certify
//! the pool no sooner than `MIN_EPOCH_CONFIRMATION` epochs later.

use vstd::prelude::*;

use crate::account::AccountSnapshot;
use crate::clock::Clock;
use crate::pubkey::Pubkey;
use crate::scanner::adapters::{
    extract_pool_data, locker, pool_data_extraction_error, pool_data_extracts, price_q64x64,
    PoolData,
};
use crate::scanner::criteria::{
    drop_bps, drop_bps_overflows, evaluate, evaluation, evaluation_succeeds_iff_derelict,
    CriteriaInputs, CriteriaThresholds, Phase, ALL_CRITERIA_MASK,
};
use crate::scanner::errors::GraveScannerError;
use crate::scanner::state::{EligibilityAnchor, LaunchPrice, ProtocolConfig};

verus! {

/// Instruction arguments.
#[derive(Clone, Copy, Debug)]
pub struct EvaluatePoolPhase1Params {
    /// The pool's AMM program.
    pub amm_program_id: Pubkey,
    /// The pool to evaluate.
    pub pool_address: Pubkey,
    /// Last swap time as supplied by the caller (not yet proven on chain).
    pub last_swap_unix_ts: i64,
}

/// The accounts Phase 1 reads.
#[derive(Debug)]
pub struct EvaluatePoolPhase1 {
    /// The scanner config.
    pub protocol_config: ProtocolConfig,
    /// The pool's recorded launch price.
    pub launch_price: LaunchPrice,
    /// The pool account.
    pub pool: AccountSnapshot,
    /// The signer who writes (and pays for) the anchor.
    pub writer: Pubkey,
    /// Vault, mint and locker accounts the adapters look up by address.
    pub remaining_accounts: Vec<AccountSnapshot>,
    /// Bump of the anchor's address.
    pub eligibility_anchor_bump: u8,
}

/// Event emitted when an anchor is written.
#[derive(Clone, Copy, Debug)]
pub struct EligibilityAnchorWritten {
    pub amm_program_id: Pubkey,
    pub pool_address: Pubkey,
    pub writer: Pubkey,
    pub first_eligible_epoch: u64,
    pub criteria_bitmap: u8,
}

/// The thresholds a config sets.
pub open spec fn thresholds_of(cfg: ProtocolConfig) -> CriteriaThresholds {
    CriteriaThresholds {
        inactivity_seconds: cfg.inactivity_seconds,
        price_collapse_bps: cfg.price_collapse_bps,
        min_tvl_lamports: cfg.min_tvl_lamports,
        lp_burn_dust_threshold: cfg.lp_burn_dust_threshold,
    }
}

/// The criteria inputs a handler assembles from a pool snapshot (whose base
/// reserve is positive), the caller's last-swap time and the clock.
pub open spec fn inputs_of(
    last_swap_unix_ts: i64,
    clock: Clock,
    launch_price: LaunchPrice,
    pool: PoolData,
    lp_locked_amount: u64,
    anchor_first_eligible_epoch: Option<u64>,
) -> CriteriaInputs {
    CriteriaInputs {
        last_swap_unix_ts: last_swap_unix_ts,
        current_unix_ts: clock.unix_timestamp,
        launch_price_q64x64: launch_price.launch_price_q64x64,
        current_price_q64x64: price_q64x64(pool.base_reserve, pool.quote_reserve) as u128,
        current_tvl_lamports: pool.quote_reserve,
        lp_supply: pool.lp_supply,
        lp_locked_amount: lp_locked_amount,
        current_epoch: clock.epoch,
        anchor_first_eligible_epoch: anchor_first_eligible_epoch,
    }
}

/// The first five criteria, read off a pool snapshot and the config: the
/// pool has a base reserve to price it by; it has been idle since the
/// caller's last swap time for at least the config's inactivity window;
/// it has a launch price, and its current quote-per-base price fell from it
/// by at least the config's collapse threshold (with the drop arithmetic
/// fitting in `u128`); its quote reserve, its residual TVL, is at least the
/// config's minimum; its LP supply is above the config's dust level; and
/// none of its LP is locked.
pub open spec fn snapshot_meets_criteria(
    cfg: ProtocolConfig,
    launch_price: LaunchPrice,
    pool: PoolData,
    lp_locked_amount: u64,
    last_swap_unix_ts: i64,
    clock: Clock,
) -> bool {
    let launch = launch_price.launch_price_q64x64;
    let price = price_q64x64(pool.base_reserve, pool.quote_reserve) as u128;
    &&& pool.base_reserve > 0
    &&& last_swap_unix_ts <= clock.unix_timestamp
    &&& clock.unix_timestamp - last_swap_unix_ts >= cfg.inactivity_seconds
    &&& launch > 0
    &&& !drop_bps_overflows(launch, price)
    &&& drop_bps(launch, price) >= cfg.price_collapse_bps
    &&& pool.quote_reserve >= cfg.min_tvl_lamports
    &&& pool.lp_supply > cfg.lp_burn_dust_threshold
    &&& lp_locked_amount == 0
}

/// Phase 1 judges a priced pool by the config's own thresholds and the
/// pool's own reserves: the evaluation of what a handler assembles passes
/// exactly when the snapshot meets the criteria.
pub proof fn phase_one_judges_snapshot_by_config(
    cfg: ProtocolConfig,
    launch_price: LaunchPrice,
    pool: PoolData,
    lp_locked_amount: u64,
    last_swap_unix_ts: i64,
    clock: Clock,
)
    requires
        pool.base_reserve > 0,
    ensures
        evaluation(
            inputs_of(last_swap_unix_ts, clock, launch_price, pool, lp_locked_amount, None),
            thresholds_of(cfg),
            Phase::One,
        ) is Ok <==> snapshot_meets_criteria(
            cfg,
            launch_price,
            pool,
            lp_locked_amount,
            last_swap_unix_ts,
            clock,
        ),
{
    evaluation_succeeds_iff_derelict(
        inputs_of(last_swap_unix_ts, clock, launch_price, pool, lp_locked_amount, None),
        thresholds_of(cfg),
        Phase::One,
    );
}

/// Reads the config thresholds.
pub fn thresholds_from(cfg: &ProtocolConfig) -> (t: CriteriaThresholds)
    ensures
        t == thresholds_of(*cfg),
        t.inactivity_seconds == cfg.inactivity_seconds,
        t.price_collapse_bps == cfg.price_collapse_bps,
        t.min_tvl_lamports == cfg.min_tvl_lamports,
        t.lp_burn_dust_threshold == cfg.lp_burn_dust_threshold,
{
    CriteriaThresholds {
        inactivity_seconds: cfg.inactivity_seconds,
        price_collapse_bps: cfg.price_collapse_bps,
        min_tvl_lamports: cfg.min_tvl_lamports,
        lp_burn_dust_threshold: cfg.lp_burn_dust_threshold,
    }
}

/// Phase 1 on an extracted pool snapshot: prices the pool, evaluates the
/// criteria and, when they all hold, builds the anchor and its event.
pub fn anchor_from_snapshot(
    cfg: &ProtocolConfig,
    launch_price: &LaunchPrice,
    pool: &PoolData,
    lp_locked_amount: u64,
    params: &EvaluatePoolPhase1Params,
    writer: &Pubkey,
    clock: &Clock,
    bump: u8,
) -> (res: Result<(EligibilityAnchor, EligibilityAnchorWritten), GraveScannerError>)
    ensures
        pool.base_reserve == 0 ==> res == Err::<
            (EligibilityAnchor, EligibilityAnchorWritten),
            GraveScannerError,
        >(GraveScannerError::MathOverflow),
        pool.base_reserve > 0 ==> ({
            let outcome = evaluation(
                inputs_of(params.last_swap_unix_ts, *clock, *launch_price, *pool, lp_locked_amount, None),
                thresholds_of(*cfg),
                Phase::One,
            );
            &&& res is Ok <==> outcome is Ok
            &&& outcome matches Err(e) ==> res == Err::<
                (EligibilityAnchor, EligibilityAnchorWritten),
                GraveScannerError,
            >(e)
        }),
        res is Ok <==> snapshot_meets_criteria(
            *cfg,
            *launch_price,
            *pool,
            lp_locked_amount,
            params.last_swap_unix_ts,
            *clock,
        ),
        res matches Ok((anchor, event)) ==> {
            &&& anchor.amm_program_id == params.amm_program_id
            &&& anchor.pool_address == params.pool_address
            &&& anchor.writer == *writer
            &&& anchor.first_eligible_epoch == clock.epoch
            &&& anchor.written_at == clock.unix_timestamp
            &&& !anchor.invalidated
            &&& anchor.criteria_bitmap == ALL_CRITERIA_MASK
            &&& anchor.bump == bump
            &&& event.amm_program_id == params.amm_program_id
            &&& event.pool_address == params.pool_address
            &&& event.writer == *writer
            &&& event.first_eligible_epoch == clock.epoch
            &&& event.criteria_bitmap == ALL_CRITERIA_MASK
        },
{
    proof {
        if pool.base_reserve > 0 {
            phase_one_judges_snapshot_by_config(
                *cfg,
                *launch_price,
                *pool,
                lp_locked_amount,
                params.last_swap_unix_ts,
                *clock,
            );
        }
    }
    let current_price = pool.current_price_q64x64()?;
    let inputs = CriteriaInputs {
        last_swap_unix_ts: params.last_swap_unix_ts,
        current_unix_ts: clock.unix_timestamp,
        launch_price_q64x64: launch_price.launch_price_q64x64,
        current_price_q64x64: current_price,
        current_tvl_lamports: pool.quote_reserve,
        lp_supply: pool.lp_supply,
        lp_locked_amount: lp_locked_amount,
        current_epoch: clock.epoch,
        anchor_first_eligible_epoch: None,
    };
    let thresholds = thresholds_from(cfg);
    let bitmap = evaluate(&inputs, &thresholds, Phase::One)?;

    let anchor = EligibilityAnchor {
        amm_program_id: params.amm_program_id,
        pool_address: params.pool_address,
        writer: *writer,
        first_eligible_epoch: clock.epoch,
        written_at: clock.unix_timestamp,
        invalidated: false,
        criteria_bitmap: bitmap,
        bump: bump,
    };
    let event = EligibilityAnchorWritten {
        amm_program_id: params.amm_program_id,
        pool_address: params.pool_address,
        writer: *writer,
        first_eligible_epoch: clock.epoch,
        criteria_bitmap: bitmap,
    };
    Ok((anchor, event))
}

/// Why Phase 1 refuses: a paused scanner, a pool that does not extract,
/// and otherwise the locker check, whose adapters are not implemented yet.
pub open spec fn phase_one_refusal(ctx: EvaluatePoolPhase1, params: EvaluatePoolPhase1Params) -> GraveScannerError {
    if ctx.protocol_config.paused {
        GraveScannerError::ProtocolPaused
    } else if !pool_data_extracts(ctx.pool, params.pool_address@, ctx.remaining_accounts@) {
        pool_data_extraction_error(ctx.pool, params.pool_address@)
    } else {
        GraveScannerError::LockerAdapterUnimplemented
    }
}

/// Phase 1 of pool evaluation.
///
/// Refuses while paused; extracts the pool snapshot; reads the LP tokens
/// locked against the pool's LP mint; then proceeds as
/// `anchor_from_snapshot`. Since no locker adapter is implemented yet,
/// every call is refused, with the error `phase_one_refusal` names.
pub fn handler(ctx: &EvaluatePoolPhase1, params: &EvaluatePoolPhase1Params, clock: &Clock) -> (res:
    Result<(EligibilityAnchor, EligibilityAnchorWritten), GraveScannerError>)
    ensures
        res == Err::<(EligibilityAnchor, EligibilityAnchorWritten), GraveScannerError>(
            phase_one_refusal(*ctx, *params),
        ),
{
    if ctx.protocol_config.paused {
        return Err(GraveScannerError::ProtocolPaused);
    }
    let pool = extract_pool_data(&ctx.pool, &params.pool_address, ctx.remaining_accounts.as_slice())?;
    let lp_locked_amount = locker::locked_lp_amount(
        &pool.lp_mint,
        ctx.remaining_accounts.as_slice(),
    )?;
    anchor_from_snapshot(
        &ctx.protocol_config,
        &ctx.launch_price,
        &pool,
        lp_locked_amount,
        params,
        &ctx.writer,
        clock,
        ctx.eligibility_anchor_bump,
    )
}

} // verus!
