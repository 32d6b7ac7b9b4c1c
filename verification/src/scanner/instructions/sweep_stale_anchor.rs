//! Permissionless: closes an uncertified eligibility anchor once its
//! staleness window has passed; the rent returns to the anchor's writer.
//! Conveys no salvage authority. Every anchor that still exists is
//! uncertified: Phase 2 consumes the anchor it certifies.

use vstd::prelude::*;

use crate::clock::Clock;
use crate::pubkey::Pubkey;
use crate::scanner::constants::APPROX_EPOCH_DURATION_SECONDS;
use crate::scanner::errors::GraveScannerError;
use crate::scanner::state::{EligibilityAnchor, ProtocolConfig};

verus! {

/// The accounts the instruction reads.
#[derive(Clone, Copy, Debug)]
pub struct SweepStaleAnchor {
    /// The scanner config.
    pub protocol_config: ProtocolConfig,
    /// The anchor to close.
    pub eligibility_anchor: EligibilityAnchor,
    /// The account that receives the rent; must be the anchor's writer.
    pub anchor_writer: Pubkey,
    /// Whoever triggers the sweep.
    pub caller: Pubkey,
}

/// Event emitted when an anchor is swept.
#[derive(Clone, Copy, Debug)]
pub struct AnchorSwept {
    pub amm_program_id: Pubkey,
    pub pool_address: Pubkey,
    pub swept_by: Pubkey,
    pub rent_returned_to: Pubkey,
}

/// The staleness window in whole epochs:
/// `ceil(staleness_seconds / APPROX_EPOCH_DURATION_SECONDS)`, where the
/// rounding addend saturates at `u64::MAX`.
pub open spec fn staleness_epochs(staleness_seconds: u64) -> int {
    let padded = staleness_seconds + (APPROX_EPOCH_DURATION_SECONDS - 1);
    let saturated = if padded > u64::MAX {
        u64::MAX as int
    } else {
        padded
    };
    saturated / (APPROX_EPOCH_DURATION_SECONDS as int)
}

/// The staleness window in epochs is the fewest whole epochs that cover
/// its seconds, wherever the rounding does not saturate.
pub proof fn staleness_epochs_cover_the_window(staleness_seconds: u64)
    requires
        staleness_seconds + APPROX_EPOCH_DURATION_SECONDS - 1 <= u64::MAX,
    ensures
        staleness_epochs(staleness_seconds) * APPROX_EPOCH_DURATION_SECONDS >= staleness_seconds,
        (staleness_epochs(staleness_seconds) - 1) * APPROX_EPOCH_DURATION_SECONDS
            < staleness_seconds,
{
    let d = APPROX_EPOCH_DURATION_SECONDS as int;
    let x = staleness_seconds + d - 1;
    vstd::arithmetic::div_mod::lemma_fundamental_div_mod(x, d);
    let e = x / d;
    assert(e * d >= staleness_seconds && (e - 1) * d < staleness_seconds) by (nonlinear_arith)
        requires
            x == d * e + x % d,
            0 <= x % d < d,
            x == staleness_seconds + d - 1,
            d > 0,
    ;
}

/// Sweeps the anchor when the rent receiver is its writer (else
/// `Unauthorized`) and the current epoch is past the anchor's first
/// eligible epoch plus the staleness window (else `AnchorNotStale`; a sum
/// beyond `u64` is `MathOverflow`).
pub fn handler(ctx: &SweepStaleAnchor, clock: &Clock) -> (res: Result<AnchorSwept, GraveScannerError>)
    ensures
        ({
            let anchor = ctx.eligibility_anchor;
            let earliest = anchor.first_eligible_epoch + staleness_epochs(
                ctx.protocol_config.anchor_staleness_seconds,
            );
            &&& anchor.writer@ != ctx.anchor_writer@ ==> res == Err::<AnchorSwept, GraveScannerError>(
                GraveScannerError::Unauthorized,
            )
            &&& anchor.writer@ == ctx.anchor_writer@ && earliest > u64::MAX ==> res == Err::<
                AnchorSwept,
                GraveScannerError,
            >(GraveScannerError::MathOverflow)
            &&& anchor.writer@ == ctx.anchor_writer@ && earliest <= u64::MAX && clock.epoch
                <= earliest ==> res == Err::<AnchorSwept, GraveScannerError>(GraveScannerError::AnchorNotStale)
            &&& res is Ok <==> (anchor.writer@ == ctx.anchor_writer@ && earliest <= u64::MAX
                && clock.epoch > earliest)
        }),
        res matches Ok(event) ==> {
            &&& event.amm_program_id == ctx.eligibility_anchor.amm_program_id
            &&& event.pool_address == ctx.eligibility_anchor.pool_address
            &&& event.swept_by == ctx.caller
            &&& event.rent_returned_to == ctx.eligibility_anchor.writer
        },
{
    let anchor = &ctx.eligibility_anchor;
    if !anchor.writer.same_as(&ctx.anchor_writer) {
        return Err(GraveScannerError::Unauthorized);
    }
    let staleness = ctx.protocol_config.anchor_staleness_seconds.saturating_add(
        APPROX_EPOCH_DURATION_SECONDS - 1,
    ) / APPROX_EPOCH_DURATION_SECONDS;
    let earliest_sweep_epoch = match anchor.first_eligible_epoch.checked_add(staleness) {
        Some(e) => e,
        None => {
            return Err(GraveScannerError::MathOverflow);
        },
    };
    if clock.epoch <= earliest_sweep_epoch {
        return Err(GraveScannerError::AnchorNotStale);
    }
    Ok(
        AnchorSwept {
            amm_program_id: anchor.amm_program_id,
            pool_address: anchor.pool_address,
            swept_by: ctx.caller,
            rent_returned_to: anchor.writer,
        },
    )
}

} // verus!
