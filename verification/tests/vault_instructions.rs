use graveyield::clock::Clock;
use graveyield::pubkey::Pubkey;
use graveyield::scanner::state::EligibilityCert;
use graveyield::vault::constants::{
    DEFAULT_JUPITER_DUST_THRESHOLD_LAMPORTS, DEFAULT_LP_HOLDER_SHARE_BPS,
    DEFAULT_MAX_PRIORITY_FEE_CEILING_LAMPORTS, DEFAULT_MAX_SLIPPAGE_BPS,
    DEFAULT_PROTOCOL_SHARE_BPS, DEFAULT_SALVOR_SHARE_BPS, DEFAULT_TIMELOCK_SECONDS,
    PROTOCOL_SHARE_BPS_CEILING,
};
use graveyield::vault::errors::GraveVaultError;
use graveyield::vault::instructions::claim_lp_proceeds::{
    self, settle_claim, ClaimLpProceeds, ClaimLpProceedsParams,
};
use graveyield::vault::instructions::emergency_pause::{self, EmergencyPause};
use graveyield::vault::instructions::initialize::{self, Initialize, InitializeParams};
use graveyield::vault::instructions::salvage_pool::{
    self, SalvagePool, SalvagePoolParams, ALL_CRITERIA_MASK,
};
use graveyield::vault::instructions::update_protocol_config::{
    self, UpdateProtocolConfig, UpdateProtocolConfigParams,
};
use graveyield::vault::state::{PoolRegistry, ProtocolConfig};

fn key(byte: u8) -> Pubkey {
    Pubkey([byte; 32])
}

fn zero_params() -> InitializeParams {
    InitializeParams {
        authority: key(1),
        lp_holder_share_bps: 0,
        salvor_share_bps: 0,
        protocol_share_bps: 0,
        max_priority_fee_ceiling_lamports: 0,
        max_slippage_bps: 0,
        jupiter_dust_threshold_lamports: 0,
        timelock_seconds: 0,
    }
}

fn init_ctx() -> Initialize {
    Initialize { payer: key(9), protocol_config_bump: 253 }
}

fn default_config() -> ProtocolConfig {
    initialize::handler(&init_ctx(), &zero_params()).unwrap()
}

#[test]
fn vault_initialize_applies_the_charter_defaults() {
    let cfg = default_config();
    assert_eq!(
        (cfg.lp_holder_share_bps, cfg.salvor_share_bps, cfg.protocol_share_bps),
        (4_000, 4_000, 2_000)
    );
    assert_eq!(cfg.lp_holder_share_bps, DEFAULT_LP_HOLDER_SHARE_BPS);
    assert_eq!(cfg.salvor_share_bps, DEFAULT_SALVOR_SHARE_BPS);
    assert_eq!(cfg.protocol_share_bps, DEFAULT_PROTOCOL_SHARE_BPS);
    assert_eq!(cfg.max_priority_fee_ceiling_lamports, DEFAULT_MAX_PRIORITY_FEE_CEILING_LAMPORTS);
    assert_eq!(cfg.max_slippage_bps, DEFAULT_MAX_SLIPPAGE_BPS);
    assert_eq!(cfg.jupiter_dust_threshold_lamports, DEFAULT_JUPITER_DUST_THRESHOLD_LAMPORTS);
    assert_eq!(cfg.timelock_seconds, DEFAULT_TIMELOCK_SECONDS);
    assert_eq!(cfg.timelock_seconds, 259_200);
    assert!(!cfg.emergency_paused);
    assert_eq!(cfg.authority, key(1));
    assert_eq!(cfg.pending_authority, Pubkey([0; 32]));
}

#[test]
fn vault_initialize_enforces_ceiling_and_split() {
    let mut params = zero_params();
    params.protocol_share_bps = PROTOCOL_SHARE_BPS_CEILING + 1;
    params.lp_holder_share_bps = 3_999;
    let err = initialize::handler(&init_ctx(), &params).map(|c| c.bump).unwrap_err();
    assert_eq!(err, GraveVaultError::ProtocolShareExceedsCeiling);
    assert_eq!(err.code(), 7005);

    let mut params = zero_params();
    params.salvor_share_bps = 4_001;
    let err = initialize::handler(&init_ctx(), &params).map(|c| c.bump).unwrap_err();
    assert_eq!(err, GraveVaultError::InvalidShareSplit);
    assert_eq!(err.code(), 7004);

    let mut params = zero_params();
    params.lp_holder_share_bps = 5_000;
    params.salvor_share_bps = 4_000;
    params.protocol_share_bps = 1_000;
    let cfg = initialize::handler(&init_ctx(), &params).unwrap();
    assert_eq!(cfg.protocol_share_bps, 1_000);
}

#[test]
fn emergency_pause_is_multisig_only() {
    let mut ctx = EmergencyPause { protocol_config: default_config(), authority: key(2) };
    assert_eq!(emergency_pause::handler(&mut ctx, true).map(|e| e.paused), Err(GraveVaultError::Unauthorized));
    assert!(!ctx.protocol_config.emergency_paused);
    ctx.authority = key(1);
    let event = emergency_pause::handler(&mut ctx, true).unwrap();
    assert!(event.paused);
    assert_eq!(event.changed_by, key(1));
    assert!(ctx.protocol_config.emergency_paused);
    emergency_pause::handler(&mut ctx, false).unwrap();
    assert!(!ctx.protocol_config.emergency_paused);
}

fn no_change() -> UpdateProtocolConfigParams {
    UpdateProtocolConfigParams {
        lp_holder_share_bps: None,
        salvor_share_bps: None,
        protocol_share_bps: None,
        max_priority_fee_ceiling_lamports: None,
        max_slippage_bps: None,
        jupiter_dust_threshold_lamports: None,
        timelock_seconds: None,
    }
}

#[test]
fn vault_update_never_raises_protocol_share_above_ceiling() {
    let mut ctx = UpdateProtocolConfig { protocol_config: default_config(), authority: key(1) };
    let raise = UpdateProtocolConfigParams {
        lp_holder_share_bps: Some(3_500),
        salvor_share_bps: Some(3_500),
        protocol_share_bps: Some(3_000),
        ..no_change()
    };
    assert_eq!(update_protocol_config::handler(&mut ctx, &raise), Err(GraveVaultError::ProtocolShareExceedsCeiling));
    assert_eq!(ctx.protocol_config.lp_holder_share_bps, 4_000);

    let lower = UpdateProtocolConfigParams {
        lp_holder_share_bps: Some(4_500),
        salvor_share_bps: Some(4_500),
        protocol_share_bps: Some(1_000),
        timelock_seconds: Some(1),
        ..no_change()
    };
    assert_eq!(update_protocol_config::handler(&mut ctx, &lower), Ok(()));
    assert_eq!(
        (ctx.protocol_config.lp_holder_share_bps, ctx.protocol_config.salvor_share_bps, ctx.protocol_config.protocol_share_bps),
        (4_500, 4_500, 1_000)
    );
    assert_eq!(ctx.protocol_config.timelock_seconds, 1);
}

#[test]
fn vault_update_is_all_or_nothing() {
    let mut ctx = UpdateProtocolConfig { protocol_config: default_config(), authority: key(1) };
    let unbalanced = UpdateProtocolConfigParams { lp_holder_share_bps: Some(4_100), timelock_seconds: Some(5), ..no_change() };
    assert_eq!(update_protocol_config::handler(&mut ctx, &unbalanced), Err(GraveVaultError::InvalidShareSplit));
    assert_eq!(ctx.protocol_config.lp_holder_share_bps, 4_000);
    assert_eq!(ctx.protocol_config.timelock_seconds, DEFAULT_TIMELOCK_SECONDS);

    let slippage = UpdateProtocolConfigParams { max_priority_fee_ceiling_lamports: Some(7), max_slippage_bps: Some(10_001), ..no_change() };
    assert_eq!(update_protocol_config::handler(&mut ctx, &slippage), Err(GraveVaultError::SlippageExceeded));
    assert_eq!(ctx.protocol_config.max_priority_fee_ceiling_lamports, DEFAULT_MAX_PRIORITY_FEE_CEILING_LAMPORTS);

    let fine = UpdateProtocolConfigParams { max_slippage_bps: Some(10_000), jupiter_dust_threshold_lamports: Some(3), ..slippage };
    assert_eq!(update_protocol_config::handler(&mut ctx, &fine), Ok(()));
    assert_eq!(ctx.protocol_config.max_priority_fee_ceiling_lamports, 7);
    assert_eq!(ctx.protocol_config.max_slippage_bps, 10_000);
    assert_eq!(ctx.protocol_config.jupiter_dust_threshold_lamports, 3);

    ctx.authority = key(4);
    assert_eq!(update_protocol_config::handler(&mut ctx, &fine), Err(GraveVaultError::Unauthorized));
}

fn cert(expires_at: i64) -> EligibilityCert {
    EligibilityCert {
        amm_program_id: key(2),
        pool_address: key(3),
        writer: key(7),
        anchor_epoch: 500,
        cert_epoch: 502,
        issued_at: expires_at - 3_600,
        expires_at,
        criteria_bitmap: ALL_CRITERIA_MASK,
        bump: 1,
    }
}

fn salvage_ctx() -> SalvagePool {
    SalvagePool {
        protocol_config: default_config(),
        eligibility_cert: cert(10_000),
        salvor: key(5),
        pool: key(3),
        lp_holder_pool_vault_lamports: 0,
        pool_registry_bump: 10,
        salvage_receipt_bump: 11,
    }
}

fn salvage_params() -> SalvagePoolParams {
    SalvagePoolParams {
        amm_program_id: key(2),
        pool_address: key(3),
        lp_snapshot_merkle_root: [9; 32],
        lp_total_supply_at_snapshot: 1_000_000,
        min_quote_output_lamports: 5,
    }
}

fn at(unix_timestamp: i64) -> Clock {
    Clock { slot: 321, epoch: 503, unix_timestamp }
}

#[test]
fn salvage_records_registry_and_receipt() {
    let out = salvage_pool::handler(&salvage_ctx(), &salvage_params(), &at(9_999)).unwrap();
    let registry = out.pool_registry;
    assert_eq!(registry.salvor, key(5));
    assert_eq!(registry.lp_snapshot_merkle_root, [9; 32]);
    assert_eq!(registry.lp_total_supply_at_snapshot, 1_000_000);
    assert_eq!((registry.lp_holder_pool_total_lamports, registry.lp_holder_pool_claimed_lamports), (0, 0));
    assert_eq!((registry.salvaged_at_slot, registry.salvaged_at_ts, registry.bump), (321, 9_999, 10));
    let receipt = out.salvage_receipt;
    assert_eq!(receipt.total_proceeds_lamports, 0);
    assert_eq!((receipt.issued_at_slot, receipt.bump), (321, 11));
    assert!(out.create_lp_holder_pool_vault);
    assert_eq!(out.pool_salvaged.salvor, key(5));
    assert_eq!(out.salvage_completed.pool_address, key(3));

    let mut funded = salvage_ctx();
    funded.lp_holder_pool_vault_lamports = 890_880;
    assert!(!salvage_pool::handler(&funded, &salvage_params(), &at(1)).unwrap().create_lp_holder_pool_vault);
}

#[test]
fn salvage_gates_in_order() {
    let params = salvage_params();
    let run = |ctx: &SalvagePool, params: &SalvagePoolParams, now: i64| {
        salvage_pool::handler(ctx, params, &at(now)).map(|o| o.create_lp_holder_pool_vault)
    };

    let mut paused = salvage_ctx();
    paused.protocol_config.emergency_paused = true;
    paused.eligibility_cert.criteria_bitmap = 0;
    assert_eq!(run(&paused, &params, 20_000), Err(GraveVaultError::ProtocolPaused));

    let mut ctx = salvage_ctx();
    ctx.eligibility_cert.criteria_bitmap = 0x1F;
    assert_eq!(run(&ctx, &params, 10_000), Err(GraveVaultError::EligibilityCertExpired));
    assert_eq!(run(&ctx, &params, 9_999), Err(GraveVaultError::InvalidEligibilityCert));

    let other_amm = SalvagePoolParams { amm_program_id: key(20), ..params };
    assert_eq!(run(&salvage_ctx(), &other_amm, 0), Err(GraveVaultError::InvalidEligibilityCert));
    let other_pool = SalvagePoolParams { pool_address: key(21), ..params };
    assert_eq!(run(&salvage_ctx(), &other_pool, 0), Err(GraveVaultError::InvalidEligibilityCert));

    let mut wrong_account = salvage_ctx();
    wrong_account.pool = key(22);
    let err = run(&wrong_account, &params, 0).unwrap_err();
    assert_eq!(err, GraveVaultError::PreflightFailed);
    assert_eq!(err.code(), 7013);
}

fn registry(total: u64, claimed: u64, supply: u64) -> PoolRegistry {
    PoolRegistry {
        amm_program_id: key(2),
        pool_address: key(3),
        salvor: key(5),
        lp_snapshot_merkle_root: [0; 32],
        lp_total_supply_at_snapshot: supply,
        lp_holder_pool_total_lamports: total,
        lp_holder_pool_claimed_lamports: claimed,
        salvaged_at_slot: 1,
        salvaged_at_ts: 1,
        bump: 1,
    }
}

#[test]
fn claim_is_refused_until_proofs_are_checked() {
    let mut ctx = ClaimLpProceeds { pool_registry: registry(1_000, 0, 100), lp_holder: key(6), claim_record_bump: 3 };
    for proof in [vec![], vec![[1u8; 32]]] {
        let params = ClaimLpProceedsParams { pool_address: key(3), lp_balance_at_snapshot: 10, merkle_proof: proof };
        let err = claim_lp_proceeds::handler(&mut ctx, &params, &at(5)).map(|r| r.0.amount_lamports).unwrap_err();
        assert_eq!(err, GraveVaultError::InvalidClaimProof);
        assert_eq!(err.code(), 7010);
        assert_eq!(ctx.pool_registry.lp_holder_pool_claimed_lamports, 0);
    }
}

#[test]
fn settle_claim_pays_pro_rata_share() {
    let mut reg = registry(1_000, 0, 300);
    let (record, event) = settle_claim(&mut reg, &key(3), &key(6), 100, &at(5), 4).unwrap();
    assert_eq!(record.amount_lamports, 333);
    assert_eq!(event.amount_lamports, 333);
    assert_eq!(reg.lp_holder_pool_claimed_lamports, 333);
    assert_eq!((record.lp_balance_at_snapshot, record.claimed_at_slot, record.claimed_at_ts, record.bump), (100, 321, 5, 4));

    // Two more thirds fit; the claimed total never passes the pool's total.
    settle_claim(&mut reg, &key(3), &key(7), 100, &at(6), 4).unwrap();
    settle_claim(&mut reg, &key(3), &key(8), 100, &at(7), 4).unwrap();
    assert_eq!(reg.lp_holder_pool_claimed_lamports, 999);
    assert_eq!(
        settle_claim(&mut reg, &key(3), &key(9), 100, &at(8), 4).map(|r| r.0.amount_lamports),
        Err(GraveVaultError::MathOverflow)
    );
    assert_eq!(reg.lp_holder_pool_claimed_lamports, 999);
}

#[test]
fn settle_claim_overflow_cases() {
    let mut empty_snapshot = registry(1_000, 0, 0);
    assert_eq!(
        settle_claim(&mut empty_snapshot, &key(3), &key(6), 1, &at(1), 1).map(|r| r.0.amount_lamports),
        Err(GraveVaultError::MathOverflow)
    );
    // A balance above the snapshot supply asks for more than the pool holds.
    let mut reg = registry(u64::MAX, 0, 1);
    assert_eq!(
        settle_claim(&mut reg, &key(3), &key(6), 2, &at(1), 1).map(|r| r.0.amount_lamports),
        Err(GraveVaultError::MathOverflow)
    );
    let (record, _) = settle_claim(&mut reg, &key(3), &key(6), 1, &at(1), 1).unwrap();
    assert_eq!(record.amount_lamports, u64::MAX);
    assert_eq!(reg.lp_holder_pool_claimed_lamports, u64::MAX);
}

#[test]
fn vault_error_codes_are_stable() {
    let expected = [
        (GraveVaultError::Unauthorized, 7000),
        (GraveVaultError::InvalidEligibilityCert, 7001),
        (GraveVaultError::EligibilityCertExpired, 7002),
        (GraveVaultError::ProtocolPaused, 7003),
        (GraveVaultError::InvalidShareSplit, 7004),
        (GraveVaultError::ProtocolShareExceedsCeiling, 7005),
        (GraveVaultError::LpHolderPoolUnsweepable, 7006),
        (GraveVaultError::SlippageExceeded, 7007),
        (GraveVaultError::PriorityFeeExceedsCeiling, 7008),
        (GraveVaultError::MathOverflow, 7009),
        (GraveVaultError::InvalidClaimProof, 7010),
        (GraveVaultError::ClaimAlreadyProcessed, 7011),
        (GraveVaultError::BelowDustThreshold, 7012),
        (GraveVaultError::PreflightFailed, 7013),
        (GraveVaultError::TimelockNotElapsed, 7014),
    ];
    for (err, code) in expected {
        assert_eq!(err.code(), code);
    }
}
