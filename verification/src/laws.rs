//! Properties that span instructions of the two programs.

use vstd::prelude::*;

use crate::account::{first_with_key, has_key, is_first_with_key, AccountSnapshot};
use crate::clock::Clock;
use crate::scanner::adapters::raydium_v4::{
    lp_mint_supply, raydium_v4_parses, raydium_v4_snapshot, vault_fields,
};
use crate::scanner::adapters::PoolData;
use crate::scanner::constants::MIN_CERT_TTL_SECONDS;
use crate::scanner::criteria;
use crate::scanner::errors::GraveScannerError;
use crate::scanner::instructions::evaluate_pool_phase2::{
    issued_certificate, phase_two_refusal, EvaluatePoolPhase2, EvaluatePoolPhase2Params,
};
use crate::scanner::state::{EligibilityAnchor, EligibilityCert, ProtocolConfig};
use crate::vault::instructions::claim_lp_proceeds::pro_rata_share;
use crate::vault::instructions::salvage_pool::{
    salvage_gate_error, SalvagePool, SalvagePoolParams, ALL_CRITERIA_MASK,
};

verus! {

/// An anchor the multisig has invalidated is never certified: once
/// `invalidate_anchor` has set its flag, Phase 2 on it refuses with
/// `AnchorInvalidated` whenever the scanner is not paused.
pub proof fn invalidated_anchor_is_never_certified(
    before: EligibilityAnchor,
    ctx: EvaluatePoolPhase2,
    params: EvaluatePoolPhase2Params,
)
    requires
        ctx.eligibility_anchor == (EligibilityAnchor { invalidated: true, ..before }),
        !ctx.protocol_config.paused,
    ensures
        phase_two_refusal(ctx, params) == GraveScannerError::AnchorInvalidated,
{
}

/// The vault accepts exactly the certificates the scanner issues: its
/// all-criteria mask is the scanner's.
pub proof fn vault_and_scanner_masks_agree()
    ensures
        ALL_CRITERIA_MASK == criteria::ALL_CRITERIA_MASK,
{
}

/// A certificate issued by Phase 2 under a well-formed scanner config
/// clears every certificate gate of the vault's salvage, for the AMM and
/// pool it names, from its issue until at least `MIN_CERT_TTL_SECONDS`
/// later, while the vault is not paused and the pool account is that pool.
pub proof fn fresh_certificate_clears_salvage_gates(
    cert: EligibilityCert,
    scanner_cfg: ProtocolConfig,
    issue_clock: Clock,
    ctx: SalvagePool,
    params: SalvagePoolParams,
    clock: Clock,
)
    requires
        issued_certificate(cert, scanner_cfg, issue_clock),
        scanner_cfg.well_formed(),
        ctx.eligibility_cert == cert,
        !ctx.protocol_config.emergency_paused,
        cert.issued_at <= clock.unix_timestamp < cert.issued_at + MIN_CERT_TTL_SECONDS,
        params.amm_program_id == cert.amm_program_id,
        params.pool_address == cert.pool_address,
        ctx.pool == params.pool_address,
    ensures
        salvage_gate_error(ctx, params, clock) is None,
{
}

/// A holder whose snapshot balance is within the snapshot supply never
/// receives more than the LP-holder pool's total.
pub proof fn pro_rata_share_within_pool(total: u64, balance: u64, supply: u64)
    requires
        0 < supply,
        balance <= supply,
    ensures
        0 <= pro_rata_share(total, balance, supply) <= total,
{
    let t = total as int;
    let b = balance as int;
    let s = supply as int;
    assert(0 <= t * b / s <= t) by (nonlinear_arith)
        requires
            0 <= t,
            0 <= b <= s,
            0 < s,
    ;
}

/// No two accounts in `accounts` share an address.
pub open spec fn keys_pairwise_distinct(accounts: Seq<AccountSnapshot>) -> bool {
    forall|i: int, j: int|
        0 <= i < accounts.len() && 0 <= j < accounts.len() && i != j ==> (#[trigger] accounts[i]).key@
            != (#[trigger] accounts[j]).key@
}

/// In a sequence with distinct addresses, the account found for an address
/// does not depend on the order of the sequence.
proof fn lemma_lookup_is_order_free(a: Seq<AccountSnapshot>, b: Seq<AccountSnapshot>, key: Seq<u8>)
    requires
        keys_pairwise_distinct(a),
        a.to_multiset() =~= b.to_multiset(),
    ensures
        first_with_key(a, key) == first_with_key(b, key),
{
    broadcast use vstd::seq_lib::group_to_multiset_ensures;

    if has_key(a, key) {
        let i = choose|i: int| 0 <= i < a.len() && (#[trigger] a[i]).key@ == key;
        assert(a.contains(a[i]));
        assert(a.to_multiset().count(a[i]) > 0);
        assert(b.contains(a[i]));
        let j = choose|j: int| 0 <= j < b.len() && b[j] == a[i];
        assert(b[j].key@ == key);
        assert(has_key(b, key));
        lemma_first_match_exists(a, key);
        lemma_first_match_exists(b, key);
        let ca = choose|c: int| is_first_with_key(a, key, c);
        let cb = choose|c: int| is_first_with_key(b, key, c);
        // b's first match is some account of a with the same address,
        // hence a's unique account with that address.
        assert(b.contains(b[cb]));
        assert(b.to_multiset().count(b[cb]) > 0);
        assert(a.contains(b[cb]));
        let m = choose|m: int| 0 <= m < a.len() && a[m] == b[cb];
        assert(a[m].key@ == key);
        assert(a[ca].key@ == key);
        assert(m == ca);
    } else {
        assert(!has_key(b, key)) by {
            if has_key(b, key) {
                let j = choose|j: int| 0 <= j < b.len() && (#[trigger] b[j]).key@ == key;
                assert(b.contains(b[j]));
                assert(b.to_multiset().count(b[j]) > 0);
                assert(a.contains(b[j]));
                let m = choose|m: int| 0 <= m < a.len() && a[m] == b[j];
                assert(a[m].key@ == key);
            }
        }
    }
}

/// Some position is the first with `key` wherever one has it.
proof fn lemma_first_match_exists(s: Seq<AccountSnapshot>, key: Seq<u8>)
    requires
        has_key(s, key),
    ensures
        exists|c: int| is_first_with_key(s, key, c),
    decreases s.len(),
{
    if s[0].key@ == key {
        assert(is_first_with_key(s, key, 0));
    } else {
        let rest = s.drop_first();
        let i = choose|i: int| 0 <= i < s.len() && (#[trigger] s[i]).key@ == key;
        assert(rest[i - 1].key@ == key);
        assert(has_key(rest, key));
        lemma_first_match_exists(rest, key);
        let c = choose|c: int| is_first_with_key(rest, key, c);
        assert forall|j: int| 0 <= j < c + 1 implies (#[trigger] s[j]).key@ != key by {
            if j > 0 {
                assert(s[j] == rest[j - 1]);
            }
        }
        assert(is_first_with_key(s, key, c + 1));
    }
}

/// A Raydium V4 pool's snapshot does not depend on the order in which the
/// vault and LP-mint accounts are passed: for remaining accounts with
/// distinct addresses and any reordering of them, parsing succeeds on the
/// one exactly when on the other, with the same snapshot.
pub proof fn raydium_v4_parse_is_independent_of_account_order(
    pool_data: Seq<u8>,
    remaining: Seq<AccountSnapshot>,
    reordered: Seq<AccountSnapshot>,
    pool: PoolData,
)
    requires
        keys_pairwise_distinct(remaining),
        reordered.to_multiset() =~= remaining.to_multiset(),
    ensures
        raydium_v4_parses(pool_data, reordered) == raydium_v4_parses(pool_data, remaining),
        raydium_v4_snapshot(pool, pool_data, reordered) == raydium_v4_snapshot(
            pool,
            pool_data,
            remaining,
        ),
{
    assert forall|key: Seq<u8>|
        vault_fields(reordered, key) == vault_fields(remaining, key) && lp_mint_supply(
            reordered,
            key,
        ) == lp_mint_supply(remaining, key) by {
        lemma_lookup_is_order_free(remaining, reordered, key);
    }
}

} // verus!
