use graveyield::scanner::criteria::{
    compute_drop_bps, evaluate, CriteriaInputs, CriteriaThresholds, Phase, ALL_CRITERIA_MASK,
    CRITERION_EPOCH_CONFIRMED, CRITERION_INACTIVITY, CRITERION_LP_NOT_BURNED, CRITERION_MIN_TVL,
    CRITERION_NO_LOCK, CRITERION_PRICE_COLLAPSE,
};
use graveyield::scanner::errors::GraveScannerError;

fn default_thresholds() -> CriteriaThresholds {
    CriteriaThresholds {
        inactivity_seconds: 90 * 24 * 60 * 60,
        price_collapse_bps: 9_900,
        min_tvl_lamports: 500_000_000,
        lp_burn_dust_threshold: 1_000,
    }
}

/// Inputs for a pool on which all six criteria comfortably pass.
fn passing_inputs() -> CriteriaInputs {
    CriteriaInputs {
        last_swap_unix_ts: 0,
        current_unix_ts: 100 * 24 * 60 * 60,
        launch_price_q64x64: 1u128 << 64,
        current_price_q64x64: 1u128 << 56,
        current_tvl_lamports: 1_000_000_000,
        lp_supply: 1_000_000,
        lp_locked_amount: 0,
        current_epoch: 1_000,
        anchor_first_eligible_epoch: Some(998),
    }
}

fn assert_err(err: GraveScannerError, expected: GraveScannerError) {
    assert_eq!(err.code(), expected.code(), "got {:?}, expected {:?}", err, expected);
    assert_eq!(err, expected);
}

#[test]
fn evaluate_phase_one_all_pass_returns_full_mask() {
    let inputs = passing_inputs();
    let bitmap = evaluate(&inputs, &default_thresholds(), Phase::One).unwrap();
    assert_eq!(bitmap, ALL_CRITERIA_MASK);
    assert_eq!(bitmap, 0x3F);
}

#[test]
fn evaluate_phase_two_with_sufficient_epoch_gap_passes() {
    let inputs = passing_inputs();
    let bitmap = evaluate(&inputs, &default_thresholds(), Phase::Two).unwrap();
    assert_eq!(bitmap, ALL_CRITERIA_MASK);
}

#[test]
fn criterion_one_rejects_recently_active_pool() {
    let mut inputs = passing_inputs();
    inputs.last_swap_unix_ts = inputs.current_unix_ts - (10 * 24 * 60 * 60);
    let err = evaluate(&inputs, &default_thresholds(), Phase::One).unwrap_err();
    assert_err(err, GraveScannerError::PoolNotEligible);
}

#[test]
fn criterion_two_rejects_pool_below_collapse_threshold() {
    let mut inputs = passing_inputs();
    inputs.current_price_q64x64 = inputs.launch_price_q64x64 / 2;
    assert!(evaluate(&inputs, &default_thresholds(), Phase::One).is_err());
}

#[test]
fn criterion_two_treats_floor_at_zero_as_full_drop() {
    let mut inputs = passing_inputs();
    inputs.current_price_q64x64 = 0;
    let bitmap = evaluate(&inputs, &default_thresholds(), Phase::One).unwrap();
    assert_eq!(bitmap, ALL_CRITERIA_MASK);
}

#[test]
fn criterion_two_rejects_pool_that_re_floated() {
    let mut inputs = passing_inputs();
    inputs.current_price_q64x64 = inputs.launch_price_q64x64 * 2;
    assert!(evaluate(&inputs, &default_thresholds(), Phase::One).is_err());
}

#[test]
fn criterion_three_rejects_pool_below_min_tvl() {
    let mut inputs = passing_inputs();
    inputs.current_tvl_lamports = 100_000_000;
    assert!(evaluate(&inputs, &default_thresholds(), Phase::One).is_err());
}

#[test]
fn criterion_four_rejects_pool_with_burned_lp() {
    let mut inputs = passing_inputs();
    inputs.lp_supply = 0;
    assert!(evaluate(&inputs, &default_thresholds(), Phase::One).is_err());
}

#[test]
fn criterion_five_rejects_pool_with_locked_lp() {
    let mut inputs = passing_inputs();
    inputs.lp_locked_amount = 1;
    assert!(evaluate(&inputs, &default_thresholds(), Phase::One).is_err());
}

#[test]
fn criterion_six_rejects_phase_two_inside_confirmation_gap() {
    let mut inputs = passing_inputs();
    inputs.current_epoch = 999;
    let err = evaluate(&inputs, &default_thresholds(), Phase::Two).unwrap_err();
    assert_err(err, GraveScannerError::EpochConfirmationPending);
}

#[test]
fn criterion_six_rejects_phase_two_without_anchor_epoch() {
    let mut inputs = passing_inputs();
    inputs.anchor_first_eligible_epoch = None;
    let err = evaluate(&inputs, &default_thresholds(), Phase::Two).unwrap_err();
    assert_err(err, GraveScannerError::AnchorNotFound);
}

#[test]
fn compute_drop_bps_at_99_percent() {
    let launch = 1u128 << 64;
    let current = launch / 100;
    let bps = compute_drop_bps(launch, current).unwrap();
    assert!((9_899..=9_900).contains(&bps), "got {bps} bps");
}

#[test]
fn compute_drop_bps_at_zero_current() {
    let bps = compute_drop_bps(1u128 << 64, 0).unwrap();
    assert_eq!(bps, 10_000);
}

#[test]
fn compute_drop_bps_returns_zero_when_current_above_launch() {
    let bps = compute_drop_bps(1u128 << 64, 2u128 << 64).unwrap();
    assert_eq!(bps, 0);
}

// ---------------------------------------------------------------------
// Further cases.
// ---------------------------------------------------------------------

#[test]
fn criteria_mask_is_union_of_the_six_bits() {
    assert_eq!(
        CRITERION_INACTIVITY
            | CRITERION_PRICE_COLLAPSE
            | CRITERION_MIN_TVL
            | CRITERION_LP_NOT_BURNED
            | CRITERION_NO_LOCK
            | CRITERION_EPOCH_CONFIRMED,
        ALL_CRITERIA_MASK
    );
}

#[test]
fn clock_before_last_swap_is_invalid_clock() {
    let mut inputs = passing_inputs();
    inputs.last_swap_unix_ts = inputs.current_unix_ts + 1;
    let err = evaluate(&inputs, &default_thresholds(), Phase::One).unwrap_err();
    assert_err(err, GraveScannerError::InvalidClock);
}

#[test]
fn inactivity_exactly_at_threshold_passes() {
    let mut inputs = passing_inputs();
    inputs.last_swap_unix_ts = inputs.current_unix_ts - 90 * 24 * 60 * 60;
    assert_eq!(evaluate(&inputs, &default_thresholds(), Phase::One), Ok(0x3F));
    inputs.last_swap_unix_ts += 1;
    assert_eq!(
        evaluate(&inputs, &default_thresholds(), Phase::One),
        Err(GraveScannerError::PoolNotEligible)
    );
}

#[test]
fn inactivity_spanning_the_whole_i64_range() {
    let mut inputs = passing_inputs();
    inputs.last_swap_unix_ts = i64::MIN;
    inputs.current_unix_ts = i64::MAX;
    assert_eq!(evaluate(&inputs, &default_thresholds(), Phase::One), Ok(0x3F));
}

#[test]
fn zero_launch_price_is_launch_price_not_found() {
    let mut inputs = passing_inputs();
    inputs.launch_price_q64x64 = 0;
    let err = evaluate(&inputs, &default_thresholds(), Phase::One).unwrap_err();
    assert_err(err, GraveScannerError::LaunchPriceNotFound);
}

#[test]
fn huge_launch_price_overflows_drop_math() {
    let mut inputs = passing_inputs();
    inputs.launch_price_q64x64 = u128::MAX;
    inputs.current_price_q64x64 = 0;
    let err = evaluate(&inputs, &default_thresholds(), Phase::One).unwrap_err();
    assert_err(err, GraveScannerError::MathOverflow);
    assert_eq!(compute_drop_bps(u128::MAX, 0), Err(GraveScannerError::MathOverflow));
    // Below the overflow point the drop is exact.
    let launch = u128::MAX / 10_000;
    assert_eq!(compute_drop_bps(launch, 0), Ok(10_000));
}

#[test]
fn compute_drop_bps_exact_values() {
    assert_eq!(compute_drop_bps(10_000, 1), Ok(9_999));
    assert_eq!(compute_drop_bps(3, 1), Ok(6_666));
    assert_eq!(compute_drop_bps(7, 7), Ok(0));
    assert_eq!(compute_drop_bps(1, 0), Ok(10_000));
}

#[test]
fn drop_bps_never_grows_as_price_rises() {
    let launch = 1u128 << 64;
    let mut previous = 10_001u16;
    for k in 0..=20u128 {
        let bps = compute_drop_bps(launch, k * (launch / 10)).unwrap();
        assert!(bps <= previous);
        assert!(bps <= 10_000);
        previous = bps;
    }
}

#[test]
fn drop_bps_never_shrinks_as_launch_price_rises() {
    let current = 1u128 << 64;
    let mut previous = 0u16;
    for k in 1..=40u128 {
        let bps = compute_drop_bps(k * (current / 4), current).unwrap();
        assert!(bps >= previous);
        assert!(bps <= 10_000);
        previous = bps;
    }
    assert_eq!(compute_drop_bps(4 * current, current), Ok(7_500));
}

#[test]
fn lp_supply_at_dust_threshold_counts_as_burned() {
    let mut inputs = passing_inputs();
    inputs.lp_supply = 1_000;
    assert_eq!(
        evaluate(&inputs, &default_thresholds(), Phase::One),
        Err(GraveScannerError::PoolNotEligible)
    );
    inputs.lp_supply = 1_001;
    assert_eq!(evaluate(&inputs, &default_thresholds(), Phase::One), Ok(0x3F));
}

#[test]
fn zero_dust_threshold_still_rejects_fully_burned_supply() {
    let mut thresholds = default_thresholds();
    thresholds.lp_burn_dust_threshold = 0;
    let mut inputs = passing_inputs();
    inputs.lp_supply = 0;
    assert_eq!(evaluate(&inputs, &thresholds, Phase::One), Err(GraveScannerError::PoolNotEligible));
}

#[test]
fn anchor_epoch_in_the_future_is_pending() {
    let mut inputs = passing_inputs();
    inputs.anchor_first_eligible_epoch = Some(2_000);
    assert_eq!(
        evaluate(&inputs, &default_thresholds(), Phase::Two),
        Err(GraveScannerError::EpochConfirmationPending)
    );
    assert_eq!(evaluate(&inputs, &default_thresholds(), Phase::One), Ok(0x3F));
}

#[test]
fn earlier_criteria_fail_first() {
    let mut inputs = passing_inputs();
    inputs.lp_locked_amount = 5;
    inputs.anchor_first_eligible_epoch = None;
    inputs.launch_price_q64x64 = 0;
    assert_eq!(
        evaluate(&inputs, &default_thresholds(), Phase::Two),
        Err(GraveScannerError::LaunchPriceNotFound)
    );
}
