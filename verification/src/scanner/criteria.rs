//! The six derelict-pool criteria, evaluated as one pure function over
//! values the instruction handlers collect beforehand.

use vstd::prelude::*;

use crate::scanner::constants::MIN_EPOCH_CONFIRMATION;
use crate::scanner::errors::GraveScannerError;

verus! {

/// Criterion 1 bit: long trading inactivity.
pub const CRITERION_INACTIVITY: u8 = 0x01;

/// Criterion 2 bit: price collapse from launch.
pub const CRITERION_PRICE_COLLAPSE: u8 = 0x02;

/// Criterion 3 bit: residual TVL at or above the minimum.
pub const CRITERION_MIN_TVL: u8 = 0x04;

/// Criterion 4 bit: LP supply not burned to dust.
pub const CRITERION_LP_NOT_BURNED: u8 = 0x08;

/// Criterion 5 bit: no LP tokens locked.
pub const CRITERION_NO_LOCK: u8 = 0x10;

/// Criterion 6 bit: multi-epoch confirmation.
pub const CRITERION_EPOCH_CONFIRMED: u8 = 0x20;

/// All six criteria satisfied: `0b0011_1111`.
pub const ALL_CRITERIA_MASK: u8 = 0x3F;

/// What a handler collects before evaluation.
///
/// Prices are quote-per-base in Q64.64 fixed point.
#[derive(Clone, Copy, Debug)]
pub struct CriteriaInputs {
    /// Last on-chain swap timestamp (unix seconds).
    pub last_swap_unix_ts: i64,
    /// Current on-chain time (unix seconds).
    pub current_unix_ts: i64,
    /// Recorded launch price, Q64.64.
    pub launch_price_q64x64: u128,
    /// Current pool price, Q64.64.
    pub current_price_q64x64: u128,
    /// Residual TVL of the pool in lamports (or quote base units).
    pub current_tvl_lamports: u64,
    /// Outstanding LP token supply.
    pub lp_supply: u64,
    /// LP tokens currently locked in any external locker.
    pub lp_locked_amount: u64,
    /// Current epoch.
    pub current_epoch: u64,
    /// The anchor's first eligible epoch; needed only in Phase 2.
    pub anchor_first_eligible_epoch: Option<u64>,
}

/// Thresholds taken from the protocol config.
#[derive(Clone, Copy, Debug)]
pub struct CriteriaThresholds {
    /// Minimum seconds since the last swap.
    pub inactivity_seconds: u64,
    /// Minimum price drop from launch, in basis points.
    pub price_collapse_bps: u16,
    /// Minimum residual TVL in lamports.
    pub min_tvl_lamports: u64,
    /// LP supply at or below this counts as burned.
    pub lp_burn_dust_threshold: u64,
}

/// Phase 1 stamps the first eligible epoch; Phase 2 enforces the
/// confirmation gap against it.
#[derive(Clone, Copy, PartialEq, Eq, Debug, Structural)]
pub enum Phase {
    One,
    Two,
}

/// Whether `(launch - current) * 10_000` exceeds `u128::MAX` on a pool
/// whose price fell.
pub open spec fn drop_bps_overflows(launch: u128, current: u128) -> bool {
    current < launch && (launch - current) * 10_000 > u128::MAX
}

/// Price drop from launch in basis points: `floor((launch - current) *
/// 10_000 / launch)`, capped at 10_000, and 0 when the price did not fall.
pub open spec fn drop_bps(launch: u128, current: u128) -> int {
    if current >= launch {
        0
    } else {
        let q = (launch - current) * 10_000 / (launch as int);
        if q > 10_000 {
            10_000
        } else {
            q
        }
    }
}

/// Criterion 6 for the given phase: Phase 1 holds by the epoch stamp
/// itself; Phase 2 needs an anchor at least `MIN_EPOCH_CONFIRMATION`
/// epochs old (epoch difference saturating at zero).
pub open spec fn epoch_confirmed(inputs: CriteriaInputs, phase: Phase) -> bool {
    match phase {
        Phase::One => true,
        Phase::Two => match inputs.anchor_first_eligible_epoch {
            Some(a) => inputs.current_epoch >= a && inputs.current_epoch - a
                >= MIN_EPOCH_CONFIRMATION,
            None => false,
        },
    }
}

/// All six criteria hold: the pool is derelict.
pub open spec fn criteria_hold(
    inputs: CriteriaInputs,
    thresholds: CriteriaThresholds,
    phase: Phase,
) -> bool {
    &&& inputs.last_swap_unix_ts <= inputs.current_unix_ts
    &&& inputs.current_unix_ts - inputs.last_swap_unix_ts >= thresholds.inactivity_seconds
    &&& inputs.launch_price_q64x64 > 0
    &&& drop_bps(inputs.launch_price_q64x64, inputs.current_price_q64x64)
        >= thresholds.price_collapse_bps
    &&& inputs.current_tvl_lamports >= thresholds.min_tvl_lamports
    &&& inputs.lp_supply > thresholds.lp_burn_dust_threshold
    &&& inputs.lp_locked_amount == 0
    &&& epoch_confirmed(inputs, phase)
}

/// The evaluator's outcome: the checks run in order, criterion by
/// criterion, and the first that fails decides the error.
pub open spec fn evaluation(
    inputs: CriteriaInputs,
    thresholds: CriteriaThresholds,
    phase: Phase,
) -> Result<u8, GraveScannerError> {
    let launch = inputs.launch_price_q64x64;
    let current = inputs.current_price_q64x64;
    if inputs.current_unix_ts < inputs.last_swap_unix_ts {
        Err(GraveScannerError::InvalidClock)
    } else if inputs.current_unix_ts - inputs.last_swap_unix_ts < thresholds.inactivity_seconds {
        Err(GraveScannerError::PoolNotEligible)
    } else if launch == 0 {
        Err(GraveScannerError::LaunchPriceNotFound)
    } else if drop_bps_overflows(launch, current) {
        Err(GraveScannerError::MathOverflow)
    } else if drop_bps(launch, current) < thresholds.price_collapse_bps {
        Err(GraveScannerError::PoolNotEligible)
    } else if inputs.current_tvl_lamports < thresholds.min_tvl_lamports {
        Err(GraveScannerError::PoolNotEligible)
    } else if inputs.lp_supply <= thresholds.lp_burn_dust_threshold {
        Err(GraveScannerError::PoolNotEligible)
    } else if inputs.lp_locked_amount != 0 {
        Err(GraveScannerError::PoolNotEligible)
    } else {
        match phase {
            Phase::One => Ok(ALL_CRITERIA_MASK),
            Phase::Two => match inputs.anchor_first_eligible_epoch {
                None => Err(GraveScannerError::AnchorNotFound),
                Some(a) => if !epoch_confirmed(inputs, phase) {
                    Err(GraveScannerError::EpochConfirmationPending)
                } else {
                    Ok(ALL_CRITERIA_MASK)
                },
            },
        }
    }
}

proof fn lemma_criteria_bits_accumulate()
    ensures
        ((((((0u8 | CRITERION_INACTIVITY) | CRITERION_PRICE_COLLAPSE) | CRITERION_MIN_TVL)
            | CRITERION_LP_NOT_BURNED) | CRITERION_NO_LOCK) | CRITERION_EPOCH_CONFIRMED)
            == ALL_CRITERIA_MASK,
{
    assert(((((((0u8 | 0x01u8) | 0x02u8) | 0x04u8) | 0x08u8) | 0x10u8) | 0x20u8) == 0x3Fu8)
        by (bit_vector);
}

/// Evaluate all six derelict-pool criteria.
///
/// Returns the full criteria bitmap when every criterion passes; otherwise
/// the error of the first criterion that fails, in criterion order.
pub fn evaluate(
    inputs: &CriteriaInputs,
    thresholds: &CriteriaThresholds,
    phase: Phase,
) -> (res: Result<u8, GraveScannerError>)
    ensures
        res == evaluation(*inputs, *thresholds, phase),
        res is Ok ==> res == Ok::<u8, GraveScannerError>(ALL_CRITERIA_MASK),
{
    let mut bitmap: u8 = 0;

    // Criterion 1: inactivity.
    if inputs.current_unix_ts < inputs.last_swap_unix_ts {
        return Err(GraveScannerError::InvalidClock);
    }
    let elapsed_seconds: i128 = (inputs.current_unix_ts as i128) - (inputs.last_swap_unix_ts
        as i128);
    if (elapsed_seconds as u128) < (thresholds.inactivity_seconds as u128) {
        return Err(GraveScannerError::PoolNotEligible);
    }
    bitmap = bitmap | CRITERION_INACTIVITY;

    // Criterion 2: price collapse.
    if inputs.launch_price_q64x64 == 0 {
        return Err(GraveScannerError::LaunchPriceNotFound);
    }
    let drop = compute_drop_bps(inputs.launch_price_q64x64, inputs.current_price_q64x64);
    let drop_bps_value: u16 = match drop {
        Ok(b) => b,
        Err(e) => {
            return Err(e);
        },
    };
    if drop_bps_value < thresholds.price_collapse_bps {
        return Err(GraveScannerError::PoolNotEligible);
    }
    bitmap = bitmap | CRITERION_PRICE_COLLAPSE;

    // Criterion 3: residual TVL.
    if inputs.current_tvl_lamports < thresholds.min_tvl_lamports {
        return Err(GraveScannerError::PoolNotEligible);
    }
    bitmap = bitmap | CRITERION_MIN_TVL;

    // Criterion 4: LP supply not burned to dust (strict, so a zero dust
    // threshold still rejects a fully burned supply).
    if inputs.lp_supply <= thresholds.lp_burn_dust_threshold {
        return Err(GraveScannerError::PoolNotEligible);
    }
    bitmap = bitmap | CRITERION_LP_NOT_BURNED;

    // Criterion 5: nothing locked.
    if inputs.lp_locked_amount != 0 {
        return Err(GraveScannerError::PoolNotEligible);
    }
    bitmap = bitmap | CRITERION_NO_LOCK;

    // Criterion 6: multi-epoch confirmation.
    match phase {
        Phase::One => {
            bitmap = bitmap | CRITERION_EPOCH_CONFIRMED;
        },
        Phase::Two => {
            let anchor_epoch = match inputs.anchor_first_eligible_epoch {
                Some(a) => a,
                None => {
                    return Err(GraveScannerError::AnchorNotFound);
                },
            };
            let elapsed_epochs = inputs.current_epoch.saturating_sub(anchor_epoch);
            if elapsed_epochs < MIN_EPOCH_CONFIRMATION {
                return Err(GraveScannerError::EpochConfirmationPending);
            }
            bitmap = bitmap | CRITERION_EPOCH_CONFIRMED;
        },
    }

    proof {
        lemma_criteria_bits_accumulate();
    }
    if bitmap != ALL_CRITERIA_MASK {
        return Err(GraveScannerError::PoolNotEligible);
    }
    Ok(bitmap)
}

/// Price drop from launch in basis points; both prices are Q64.64.
///
/// Returns 0 when the current price is at or above launch (the pool
/// re-floated), and the floor of `(launch - current) * 10_000 / launch`
/// otherwise, capped at 10_000.
pub fn compute_drop_bps(launch_q64x64: u128, current_q64x64: u128) -> (res: Result<
    u16,
    GraveScannerError,
>)
    ensures
        drop_bps_overflows(launch_q64x64, current_q64x64) ==> res == Err::<u16, GraveScannerError>(
            GraveScannerError::MathOverflow,
        ),
        !drop_bps_overflows(launch_q64x64, current_q64x64) ==> res is Ok && res->Ok_0
            == drop_bps(launch_q64x64, current_q64x64),
        res matches Ok(b) ==> b <= 10_000,
        current_q64x64 >= launch_q64x64 ==> (res matches Ok(b) ==> b == 0),
        current_q64x64 < launch_q64x64 ==> (res matches Ok(b) ==> b * launch_q64x64 <= (
        launch_q64x64 - current_q64x64) * 10_000 < (b + 1) * launch_q64x64),
{
    if current_q64x64 >= launch_q64x64 {
        return Ok(0);
    }
    let delta = launch_q64x64 - current_q64x64;
    let scaled = match delta.checked_mul(10_000u128) {
        Some(s) => s,
        None => {
            return Err(GraveScannerError::MathOverflow);
        },
    };
    let bps = scaled / launch_q64x64;
    proof {
        let l = launch_q64x64 as int;
        let x = scaled as int;
        vstd::arithmetic::div_mod::lemma_fundamental_div_mod(x, l);
        assert(bps * l <= x < (bps + 1) * l && bps <= 10_000) by (nonlinear_arith)
            requires
                x == l * (x / l) + x % l,
                0 <= x % l < l,
                bps == x / l,
                x == (delta as int) * 10_000,
                0 < delta <= l,
        ;
    }
    Ok(
        if bps > 10_000 {
            10_000
        } else {
            bps as u16
        },
    )
}

/// A pool is certified exactly when it is derelict: the evaluator succeeds
/// if and only if all six criteria hold (and the drop arithmetic fits in
/// `u128`), and success always carries the full six-bit mask.
pub proof fn evaluation_succeeds_iff_derelict(
    inputs: CriteriaInputs,
    thresholds: CriteriaThresholds,
    phase: Phase,
)
    ensures
        evaluation(inputs, thresholds, phase) is Ok <==> (criteria_hold(inputs, thresholds, phase)
            && !drop_bps_overflows(inputs.launch_price_q64x64, inputs.current_price_q64x64)),
        evaluation(inputs, thresholds, phase) is Ok ==> evaluation(inputs, thresholds, phase)
            == Ok::<u8, GraveScannerError>(ALL_CRITERIA_MASK),
{
}

/// Phase 2 is strictly harder than Phase 1: inputs that pass Phase 2 also
/// pass Phase 1, and a Phase 1 failure is reported identically in Phase 2.
pub proof fn phase_two_pass_implies_phase_one_pass(
    inputs: CriteriaInputs,
    thresholds: CriteriaThresholds,
)
    ensures
        evaluation(inputs, thresholds, Phase::Two) is Ok ==> evaluation(
            inputs,
            thresholds,
            Phase::One,
        ) is Ok,
        evaluation(inputs, thresholds, Phase::One) is Err ==> evaluation(
            inputs,
            thresholds,
            Phase::Two,
        ) == evaluation(inputs, thresholds, Phase::One),
{
}

/// A Phase 2 pass implies the anchor is at least `MIN_EPOCH_CONFIRMATION`
/// epochs older than the current epoch.
pub proof fn phase_two_pass_implies_confirmation_gap(
    inputs: CriteriaInputs,
    thresholds: CriteriaThresholds,
)
    ensures
        evaluation(inputs, thresholds, Phase::Two) is Ok ==> inputs.anchor_first_eligible_epoch
            is Some && inputs.current_epoch >= inputs.anchor_first_eligible_epoch->Some_0
            + MIN_EPOCH_CONFIRMATION,
{
}

/// The price drop lies in `0..=10_000` bps; it is 0 when the price did not
/// fall, 10_000 when it fell to zero, and otherwise the exact floor of
/// `(launch - current) * 10_000 / launch` (the cap never binds).
pub proof fn drop_bps_is_exact_floor(launch: u128, current: u128)
    ensures
        0 <= drop_bps(launch, current) <= 10_000,
        current >= launch ==> drop_bps(launch, current) == 0,
        current < launch ==> drop_bps(launch, current) == (launch - current) * 10_000
            / (launch as int),
        current == 0 && launch > 0 ==> drop_bps(launch, current) == 10_000,
{
    if current < launch {
        let d: int = launch - current;
        let l: int = launch as int;
        assert(0 <= d * 10_000 / l <= 10_000) by (nonlinear_arith)
            requires
                0 < d <= l,
        ;
        if current == 0 {
            assert(l * 10_000 / l == 10_000) by (nonlinear_arith)
                requires
                    l > 0,
            ;
        }
    }
}

/// A lower current price never yields a smaller drop.
pub proof fn drop_bps_is_antitone_in_current_price(launch: u128, lower: u128, higher: u128)
    requires
        lower <= higher,
    ensures
        drop_bps(launch, lower) >= drop_bps(launch, higher),
{
    drop_bps_is_exact_floor(launch, lower);
    drop_bps_is_exact_floor(launch, higher);
    if higher < launch {
        let l: int = launch as int;
        let dl: int = launch - lower;
        let dh: int = launch - higher;
        assert(dh * 10_000 / l <= dl * 10_000 / l) by (nonlinear_arith)
            requires
                0 < dh <= dl,
                l > 0,
        ;
    }
}

/// A higher launch price never yields a smaller drop for the same current
/// price.
pub proof fn drop_bps_is_monotone_in_launch_price(lower: u128, higher: u128, current: u128)
    requires
        lower <= higher,
    ensures
        drop_bps(lower, current) <= drop_bps(higher, current),
{
    drop_bps_is_exact_floor(lower, current);
    drop_bps_is_exact_floor(higher, current);
    if current < lower {
        let c: int = current as int;
        let lo: int = lower as int;
        let hi: int = higher as int;
        let x: int = (lo - c) * 10_000;
        let y: int = (hi - c) * 10_000;
        assert(x * hi <= y * lo) by (nonlinear_arith)
            requires
                0 <= c < lo <= hi,
                x == (lo - c) * 10_000,
                y == (hi - c) * 10_000,
        ;
        let q: int = x / lo;
        assert(q * lo <= x) by (nonlinear_arith)
            requires
                lo > 0,
                x >= 0,
                q == x / lo,
        ;
        assert(q <= y / hi) by (nonlinear_arith)
            requires
                lo > 0,
                hi > 0,
                q >= 0,
                q * lo <= x,
                x * hi <= y * lo,
                y >= 0,
        {
            assert(q * lo * hi <= x * hi);
            assert(q * hi * lo <= y * lo);
            assert(q * hi <= y);
        }
    }
}

/// The full mask is exactly the union of the six criterion bits.
pub proof fn all_criteria_mask_is_union_of_criteria()
    ensures
        ALL_CRITERIA_MASK == (CRITERION_INACTIVITY | CRITERION_PRICE_COLLAPSE | CRITERION_MIN_TVL
            | CRITERION_LP_NOT_BURNED | CRITERION_NO_LOCK | CRITERION_EPOCH_CONFIRMED),
{
    assert(0x3Fu8 == (0x01u8 | 0x02u8 | 0x04u8 | 0x08u8 | 0x10u8 | 0x20u8)) by (bit_vector);
}

} // verus!
