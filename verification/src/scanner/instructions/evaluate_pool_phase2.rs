//! Phase 2 of pool evaluation: re-checks all six criteria after the epoch
//! confirmation gap and issues an eligibility certificate whose lifetime is
//! the config's certificate TTL. The Phase 2 bitmap must match the anchor's.
//! Certification consumes the anchor: its account is closed and its rent
//! returns to its writer, so only uncertified anchors are left to sweep.

use vstd::prelude::*;

use crate::account::AccountSnapshot;
use crate::clock::Clock;
use crate::pubkey::Pubkey;
use crate::scanner::adapters::{
    extract_pool_data, locker, pool_data_extraction_error, pool_data_extracts, PoolData,
};
use crate::scanner::constants::{MIN_CERT_TTL_SECONDS, MIN_EPOCH_CONFIRMATION};
use crate::scanner::criteria::{
    evaluate, evaluation, evaluation_succeeds_iff_derelict, CriteriaInputs, Phase,
    ALL_CRITERIA_MASK,
};
use crate::scanner::errors::GraveScannerError;
use crate::scanner::instructions::evaluate_pool_phase1::{
    inputs_of, snapshot_meets_criteria, thresholds_from, thresholds_of,
};
use crate::scanner::state::{EligibilityAnchor, EligibilityCert, LaunchPrice, ProtocolConfig};

verus! {

/// Instruction arguments.
#[derive(Clone, Copy, Debug)]
pub struct EvaluatePoolPhase2Params {
    /// The pool's AMM program.
    pub amm_program_id: Pubkey,
    /// The pool to certify.
    pub pool_address: Pubkey,
    /// Last swap time as supplied by the caller (not yet proven on chain).
    pub last_swap_unix_ts: i64,
}

/// The accounts Phase 2 reads.
#[derive(Debug)]
pub struct EvaluatePoolPhase2 {
    /// The scanner config.
    pub protocol_config: ProtocolConfig,
    /// The pool's Phase 1 anchor.
    pub eligibility_anchor: EligibilityAnchor,
    /// The pool's recorded launch price.
    pub launch_price: LaunchPrice,
    /// The pool account.
    pub pool: AccountSnapshot,
    /// The signer who writes (and pays for) the certificate.
    pub writer: Pubkey,
    /// Vault, mint and locker accounts the adapters look up by address.
    pub remaining_accounts: Vec<AccountSnapshot>,
    /// Bump of the certificate's address.
    pub eligibility_cert_bump: u8,
}

/// Event emitted when a certificate is issued.
#[derive(Clone, Copy, Debug)]
pub struct EligibilityCertIssued {
    pub amm_program_id: Pubkey,
    pub pool_address: Pubkey,
    pub writer: Pubkey,
    pub anchor_epoch: u64,
    pub cert_epoch: u64,
    pub expires_at: i64,
    pub criteria_bitmap: u8,
}

/// What certification writes: the certificate and its event. The anchor is
/// consumed: its account is closed, its rent going to `anchor_closed_to`.
#[derive(Clone, Copy, Debug)]
pub struct Certification {
    /// The new certificate.
    pub eligibility_cert: EligibilityCert,
    /// The `EligibilityCertIssued` event.
    pub event: EligibilityCertIssued,
    /// Receiver of the consumed anchor's rent: the anchor's writer.
    pub anchor_closed_to: Pubkey,
}

/// What a certificate issued at `clock` under `cfg` carries: issued now,
/// expiring `cert_ttl_seconds` later, all six criteria certified, and
/// written at least the confirmation gap after its anchor.
pub open spec fn issued_certificate(cert: EligibilityCert, cfg: ProtocolConfig, clock: Clock) -> bool {
    &&& cert.issued_at == clock.unix_timestamp
    &&& cert.expires_at == clock.unix_timestamp + cfg.cert_ttl_seconds
    &&& cert.criteria_bitmap == ALL_CRITERIA_MASK
    &&& cert.cert_epoch == clock.epoch
    &&& cert.cert_epoch >= cert.anchor_epoch + MIN_EPOCH_CONFIRMATION
}

/// Phase 2 judges a priced pool by the config's own thresholds, the pool's
/// own reserves and the anchor's epoch: the evaluation of what a handler
/// assembles passes exactly when the snapshot meets the criteria and the
/// anchor is at least `MIN_EPOCH_CONFIRMATION` epochs old.
pub proof fn phase_two_judges_snapshot_by_config(
    cfg: ProtocolConfig,
    anchor_epoch: u64,
    launch_price: LaunchPrice,
    pool: PoolData,
    lp_locked_amount: u64,
    last_swap_unix_ts: i64,
    clock: Clock,
)
    requires
        pool.base_reserve > 0,
    ensures
        evaluation(
            inputs_of(
                last_swap_unix_ts,
                clock,
                launch_price,
                pool,
                lp_locked_amount,
                Some(anchor_epoch),
            ),
            thresholds_of(cfg),
            Phase::Two,
        ) is Ok <==> (snapshot_meets_criteria(
            cfg,
            launch_price,
            pool,
            lp_locked_amount,
            last_swap_unix_ts,
            clock,
        ) && clock.epoch >= anchor_epoch + MIN_EPOCH_CONFIRMATION),
{
    evaluation_succeeds_iff_derelict(
        inputs_of(
            last_swap_unix_ts,
            clock,
            launch_price,
            pool,
            lp_locked_amount,
            Some(anchor_epoch),
        ),
        thresholds_of(cfg),
        Phase::Two,
    );
}

/// Phase 2 on an extracted pool snapshot: prices the pool, evaluates the
/// criteria against the anchor's epoch, requires the anchor's bitmap, and
/// builds the certificate (expiring `cert_ttl_seconds` after now) and its
/// event, consuming the anchor.
pub fn cert_from_snapshot(
    cfg: &ProtocolConfig,
    anchor: &EligibilityAnchor,
    launch_price: &LaunchPrice,
    pool: &PoolData,
    lp_locked_amount: u64,
    params: &EvaluatePoolPhase2Params,
    writer: &Pubkey,
    clock: &Clock,
    bump: u8,
) -> (res: Result<Certification, GraveScannerError>)
    ensures
        pool.base_reserve == 0 ==> res == Err::<Certification, GraveScannerError>(
            GraveScannerError::MathOverflow,
        ),
        pool.base_reserve > 0 ==> ({
            let outcome = evaluation(
                inputs_of(
                    params.last_swap_unix_ts,
                    *clock,
                    *launch_price,
                    *pool,
                    lp_locked_amount,
                    Some(anchor.first_eligible_epoch),
                ),
                thresholds_of(*cfg),
                Phase::Two,
            );
            let expiry = clock.unix_timestamp + cfg.cert_ttl_seconds;
            &&& outcome matches Err(e) ==> res == Err::<
                Certification,
                GraveScannerError,
            >(e)
            &&& outcome is Ok && anchor.criteria_bitmap != ALL_CRITERIA_MASK ==> res == Err::<
                Certification,
                GraveScannerError,
            >(GraveScannerError::CriteriaBitmapMismatch)
            &&& outcome is Ok && anchor.criteria_bitmap == ALL_CRITERIA_MASK && (expiry
                < i64::MIN || expiry > i64::MAX) ==> res == Err::<
                Certification,
                GraveScannerError,
            >(GraveScannerError::MathOverflow)
            &&& res is Ok <==> (outcome is Ok && anchor.criteria_bitmap == ALL_CRITERIA_MASK
                && i64::MIN <= expiry <= i64::MAX)
        }),
        res is Ok <==> ({
            let expiry = clock.unix_timestamp + cfg.cert_ttl_seconds;
            &&& snapshot_meets_criteria(
                *cfg,
                *launch_price,
                *pool,
                lp_locked_amount,
                params.last_swap_unix_ts,
                *clock,
            )
            &&& clock.epoch >= anchor.first_eligible_epoch + MIN_EPOCH_CONFIRMATION
            &&& anchor.criteria_bitmap == ALL_CRITERIA_MASK
            &&& i64::MIN <= expiry <= i64::MAX
        }),
        res matches Ok(out) ==> {
            let cert = out.eligibility_cert;
            let event = out.event;
            &&& out.anchor_closed_to == anchor.writer
            &&& cert.amm_program_id == params.amm_program_id
            &&& cert.pool_address == params.pool_address
            &&& cert.writer == *writer
            &&& cert.anchor_epoch == anchor.first_eligible_epoch
            &&& cert.cert_epoch == clock.epoch
            &&& cert.cert_epoch >= cert.anchor_epoch + MIN_EPOCH_CONFIRMATION
            &&& cert.issued_at == clock.unix_timestamp
            &&& cert.expires_at == clock.unix_timestamp + cfg.cert_ttl_seconds
            &&& cert.criteria_bitmap == ALL_CRITERIA_MASK
            &&& cert.bump == bump
            &&& issued_certificate(cert, *cfg, *clock)
            &&& cfg.well_formed() ==> cert.issued_at + MIN_CERT_TTL_SECONDS <= cert.expires_at
            &&& event.amm_program_id == params.amm_program_id
            &&& event.pool_address == params.pool_address
            &&& event.writer == *writer
            &&& event.anchor_epoch == cert.anchor_epoch
            &&& event.cert_epoch == cert.cert_epoch
            &&& event.expires_at == cert.expires_at
            &&& event.criteria_bitmap == ALL_CRITERIA_MASK
        },
{
    proof {
        if pool.base_reserve > 0 {
            phase_two_judges_snapshot_by_config(
                *cfg,
                anchor.first_eligible_epoch,
                *launch_price,
                *pool,
                lp_locked_amount,
                params.last_swap_unix_ts,
                *clock,
            );
        }
    }
    let current_price = pool.current_price_q64x64()?;
    let inputs = CriteriaInputs {
        last_swap_unix_ts: params.last_swap_unix_ts,
        current_unix_ts: clock.unix_timestamp,
        launch_price_q64x64: launch_price.launch_price_q64x64,
        current_price_q64x64: current_price,
        current_tvl_lamports: pool.quote_reserve,
        lp_supply: pool.lp_supply,
        lp_locked_amount: lp_locked_amount,
        current_epoch: clock.epoch,
        anchor_first_eligible_epoch: Some(anchor.first_eligible_epoch),
    };
    let thresholds = thresholds_from(cfg);
    let bitmap = evaluate(&inputs, &thresholds, Phase::Two)?;

    // Phase 2 must reproduce Phase 1's bitmap; a mismatch means the
    // criteria drifted between phases, so nothing is certified.
    if bitmap != anchor.criteria_bitmap {
        return Err(GraveScannerError::CriteriaBitmapMismatch);
    }
    let expires_at = match clock.unix_timestamp.checked_add(cfg.cert_ttl_seconds) {
        Some(t) => t,
        None => {
            return Err(GraveScannerError::MathOverflow);
        },
    };
    let cert = EligibilityCert {
        amm_program_id: params.amm_program_id,
        pool_address: params.pool_address,
        writer: *writer,
        anchor_epoch: anchor.first_eligible_epoch,
        cert_epoch: clock.epoch,
        issued_at: clock.unix_timestamp,
        expires_at: expires_at,
        criteria_bitmap: bitmap,
        bump: bump,
    };
    let event = EligibilityCertIssued {
        amm_program_id: params.amm_program_id,
        pool_address: params.pool_address,
        writer: *writer,
        anchor_epoch: cert.anchor_epoch,
        cert_epoch: cert.cert_epoch,
        expires_at: cert.expires_at,
        criteria_bitmap: bitmap,
    };
    Ok(Certification { eligibility_cert: cert, event, anchor_closed_to: anchor.writer })
}

/// Why Phase 2 refuses: a paused scanner, an invalidated anchor, a pool
/// that does not extract, and otherwise the locker check, whose adapters
/// are not implemented yet.
pub open spec fn phase_two_refusal(ctx: EvaluatePoolPhase2, params: EvaluatePoolPhase2Params) -> GraveScannerError {
    if ctx.protocol_config.paused {
        GraveScannerError::ProtocolPaused
    } else if ctx.eligibility_anchor.invalidated {
        GraveScannerError::AnchorInvalidated
    } else if !pool_data_extracts(ctx.pool, params.pool_address@, ctx.remaining_accounts@) {
        pool_data_extraction_error(ctx.pool, params.pool_address@)
    } else {
        GraveScannerError::LockerAdapterUnimplemented
    }
}

/// Phase 2 of pool evaluation.
///
/// Refuses while paused or when the anchor was invalidated; extracts the
/// pool snapshot; reads the LP tokens locked against the pool's LP mint;
/// then proceeds as `cert_from_snapshot`. Since no locker adapter is
/// implemented yet, every call is refused, with the error
/// `phase_two_refusal` names.
pub fn handler(ctx: &EvaluatePoolPhase2, params: &EvaluatePoolPhase2Params, clock: &Clock) -> (res:
    Result<Certification, GraveScannerError>)
    ensures
        res == Err::<Certification, GraveScannerError>(
            phase_two_refusal(*ctx, *params),
        ),
{
    if ctx.protocol_config.paused {
        return Err(GraveScannerError::ProtocolPaused);
    }
    if ctx.eligibility_anchor.invalidated {
        return Err(GraveScannerError::AnchorInvalidated);
    }
    let pool = extract_pool_data(&ctx.pool, &params.pool_address, ctx.remaining_accounts.as_slice())?;
    let lp_locked_amount = locker::locked_lp_amount(
        &pool.lp_mint,
        ctx.remaining_accounts.as_slice(),
    )?;
    cert_from_snapshot(
        &ctx.protocol_config,
        &ctx.eligibility_anchor,
        &ctx.launch_price,
        &pool,
        lp_locked_amount,
        params,
        &ctx.writer,
        clock,
        ctx.eligibility_cert_bump,
    )
}

} // verus!
