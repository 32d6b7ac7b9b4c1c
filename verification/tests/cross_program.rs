use graveyield::account::AccountSnapshot;
use graveyield::clock::Clock;
use graveyield::pubkey::Pubkey;
use graveyield::scanner::adapters::PoolData;
use graveyield::scanner::criteria;
use graveyield::scanner::errors::GraveScannerError;
use graveyield::scanner::instructions::evaluate_pool_phase2::{
    self, cert_from_snapshot, EvaluatePoolPhase2, EvaluatePoolPhase2Params,
};
use graveyield::scanner::instructions::initialize::{self as scanner_init, InitializeParams};
use graveyield::scanner::instructions::invalidate_anchor::{
    self, InvalidateAnchor, InvalidateAnchorParams,
};
use graveyield::scanner::state::{EligibilityAnchor, LaunchPrice};
use graveyield::vault::errors::GraveVaultError;
use graveyield::vault::instructions::initialize::{self as vault_init, InitializeParams as VaultInitializeParams};
use graveyield::vault::instructions::salvage_pool::{self, SalvagePool, SalvagePoolParams};

fn key(byte: u8) -> Pubkey {
    Pubkey([byte; 32])
}

fn scanner_config(cert_ttl_seconds: i64) -> graveyield::scanner::state::ProtocolConfig {
    scanner_init::handler(
        &scanner_init::Initialize { payer: key(9), protocol_config_bump: 1 },
        &InitializeParams {
            authority: key(1),
            inactivity_seconds: 0,
            price_collapse_bps: 0,
            min_tvl_lamports: 0,
            anchor_staleness_seconds: 0,
            lp_burn_dust_threshold: 0,
            cert_ttl_seconds,
        },
    )
    .unwrap()
}

fn anchor() -> EligibilityAnchor {
    EligibilityAnchor {
        amm_program_id: key(2),
        pool_address: key(3),
        writer: key(7),
        first_eligible_epoch: 500,
        written_at: 0,
        invalidated: false,
        criteria_bitmap: criteria::ALL_CRITERIA_MASK,
        bump: 1,
    }
}

fn launch_price() -> LaunchPrice {
    LaunchPrice {
        amm_program_id: key(2),
        pool_address: key(3),
        base_mint: key(4),
        quote_mint: key(5),
        launch_price_q64x64: 1u128 << 64,
        recorded_slot: 1,
        recorded_at: 0,
        bump: 1,
    }
}

fn pool() -> PoolData {
    PoolData {
        last_swap_unix_ts: 0,
        base_reserve: 256_000_000_000,
        quote_reserve: 1_000_000_000,
        lp_supply: 1_000_000,
        base_mint: key(4),
        quote_mint: key(5),
        lp_mint: key(6),
    }
}

#[test]
fn vault_and_scanner_masks_agree() {
    assert_eq!(salvage_pool::ALL_CRITERIA_MASK, criteria::ALL_CRITERIA_MASK);
}

#[test]
fn invalidated_anchor_cannot_reach_phase_two() {
    let mut inv = InvalidateAnchor { protocol_config: scanner_config(0), eligibility_anchor: anchor(), authority: key(1) };
    invalidate_anchor::handler(&mut inv, &InvalidateAnchorParams { amm_program_id: key(2), pool_address: key(3) }).unwrap();
    let ctx = EvaluatePoolPhase2 {
        protocol_config: scanner_config(0),
        eligibility_anchor: inv.eligibility_anchor,
        launch_price: launch_price(),
        pool: AccountSnapshot { key: key(3), owner: key(99), data: vec![] },
        writer: key(7),
        remaining_accounts: vec![],
        eligibility_cert_bump: 1,
    };
    let params = EvaluatePoolPhase2Params { amm_program_id: key(2), pool_address: key(3), last_swap_unix_ts: 0 };
    let clock = Clock { slot: 1, epoch: 10_000, unix_timestamp: 100 * 24 * 60 * 60 };
    let err = evaluate_pool_phase2::handler(&ctx, &params, &clock).map(|r| r.eligibility_cert.bump).unwrap_err();
    assert_eq!(err, GraveScannerError::AnchorInvalidated);
}

#[test]
fn fresh_certificate_clears_salvage_gates_for_its_lifetime() {
    let issue = Clock { slot: 1, epoch: 502, unix_timestamp: 100 * 24 * 60 * 60 };
    let params2 = EvaluatePoolPhase2Params { amm_program_id: key(2), pool_address: key(3), last_swap_unix_ts: 0 };
    let cfg = scanner_config(600);
    let out = cert_from_snapshot(&cfg, &anchor(), &launch_price(), &pool(), 0, &params2, &key(7), &issue, 1).unwrap();
    assert_eq!(out.anchor_closed_to, key(7));
    let cert = out.eligibility_cert;

    let vault_cfg = vault_init::handler(
        &vault_init::Initialize { payer: key(9), protocol_config_bump: 1 },
        &VaultInitializeParams {
            authority: key(1),
            lp_holder_share_bps: 0,
            salvor_share_bps: 0,
            protocol_share_bps: 0,
            max_priority_fee_ceiling_lamports: 0,
            max_slippage_bps: 0,
            jupiter_dust_threshold_lamports: 0,
            timelock_seconds: 0,
        },
    )
    .unwrap();
    let ctx = SalvagePool {
        protocol_config: vault_cfg,
        eligibility_cert: cert,
        salvor: key(8),
        pool: key(3),
        lp_holder_pool_vault_lamports: 0,
        pool_registry_bump: 1,
        salvage_receipt_bump: 1,
    };
    let params = SalvagePoolParams {
        amm_program_id: key(2),
        pool_address: key(3),
        lp_snapshot_merkle_root: [1; 32],
        lp_total_supply_at_snapshot: 1_000_000,
        min_quote_output_lamports: 0,
    };
    let at = |t: i64| Clock { slot: 2, epoch: 503, unix_timestamp: t };
    for t in [issue.unix_timestamp, issue.unix_timestamp + 599] {
        assert!(salvage_pool::handler(&ctx, &params, &at(t)).is_ok());
    }
    assert_eq!(
        salvage_pool::handler(&ctx, &params, &at(issue.unix_timestamp + 600)).map(|o| o.create_lp_holder_pool_vault),
        Err(GraveVaultError::EligibilityCertExpired)
    );
}
