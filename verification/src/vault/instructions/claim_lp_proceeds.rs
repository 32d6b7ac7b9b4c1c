//! An original LP holder withdraws their pro-rata share of the LP-holder
//! pool. The claim must be proven against the snapshot Merkle root locked
//! into the pool registry; the claim record makes a second claim fail.
//! This instruction is not gated by the emergency pause.

use vstd::prelude::*;

use crate::clock::Clock;
use crate::pubkey::Pubkey;
use crate::vault::errors::GraveVaultError;
use crate::vault::state::{ClaimRecord, PoolRegistry};

verus! {

/// Instruction arguments.
#[derive(Debug)]
pub struct ClaimLpProceedsParams {
    pub pool_address: Pubkey,
    /// The holder's LP balance at the snapshot.
    pub lp_balance_at_snapshot: u64,
    /// Merkle proof of `(lp_holder, lp_balance_at_snapshot)` against the
    /// registry's snapshot root.
    pub merkle_proof: Vec<[u8; 32]>,
}

/// The accounts a claim reads and writes.
#[derive(Clone, Copy, Debug)]
pub struct ClaimLpProceeds {
    /// The pool's registry.
    pub pool_registry: PoolRegistry,
    /// The signing LP holder.
    pub lp_holder: Pubkey,
    /// Bump of the claim record's address.
    pub claim_record_bump: u8,
}

/// Event emitted when a claim is processed.
#[derive(Clone, Copy, Debug)]
pub struct LpClaimProcessed {
    pub pool_address: Pubkey,
    pub lp_holder: Pubkey,
    pub amount_lamports: u64,
}

/// The holder's pro-rata share: `floor(total * balance / supply)`.
pub open spec fn pro_rata_share(total: u64, balance: u64, supply: u64) -> int {
    (total as int) * (balance as int) / (supply as int)
}

/// Whether a settlement fits: a nonzero snapshot supply, and the share
/// added to what was already claimed stays within the pool's total.
pub open spec fn claim_settles(registry: PoolRegistry, balance: u64) -> bool {
    &&& registry.lp_total_supply_at_snapshot > 0
    &&& registry.lp_holder_pool_claimed_lamports + pro_rata_share(
        registry.lp_holder_pool_total_lamports,
        balance,
        registry.lp_total_supply_at_snapshot,
    ) <= registry.lp_holder_pool_total_lamports
}

/// The settlement of an accepted claim: computes the holder's pro-rata
/// share, adds it to the registry's claimed total and builds the claim
/// record and event. A zero snapshot supply, or a share that would take
/// the claimed total past the pool's total, is `MathOverflow` and changes
/// nothing.
pub fn settle_claim(
    registry: &mut PoolRegistry,
    pool_address: &Pubkey,
    lp_holder: &Pubkey,
    lp_balance_at_snapshot: u64,
    clock: &Clock,
    bump: u8,
) -> (res: Result<(ClaimRecord, LpClaimProcessed), GraveVaultError>)
    ensures
        res is Ok <==> claim_settles(*old(registry), lp_balance_at_snapshot),
        res is Err <==> (old(registry).lp_total_supply_at_snapshot == 0
            || old(registry).lp_holder_pool_claimed_lamports + pro_rata_share(
            old(registry).lp_holder_pool_total_lamports,
            lp_balance_at_snapshot,
            old(registry).lp_total_supply_at_snapshot,
        ) > old(registry).lp_holder_pool_total_lamports),
        old(registry).well_formed() ==> final(registry).well_formed(),
        res is Err ==> res == Err::<(ClaimRecord, LpClaimProcessed), GraveVaultError>(
            GraveVaultError::MathOverflow,
        ) && *final(registry) == *old(registry),
        res matches Ok((record, event)) ==> {
            let share = pro_rata_share(
                old(registry).lp_holder_pool_total_lamports,
                lp_balance_at_snapshot,
                old(registry).lp_total_supply_at_snapshot,
            );
            &&& *final(registry) == (PoolRegistry {
                lp_holder_pool_claimed_lamports: (old(registry).lp_holder_pool_claimed_lamports
                    + share) as u64,
                ..*old(registry)
            })
            &&& final(registry).well_formed()
            &&& record.pool_address == *pool_address
            &&& record.lp_holder == *lp_holder
            &&& record.amount_lamports == share
            &&& record.amount_lamports * old(registry).lp_total_supply_at_snapshot
                <= old(registry).lp_holder_pool_total_lamports * lp_balance_at_snapshot
                < (record.amount_lamports + 1) * old(registry).lp_total_supply_at_snapshot
            &&& record.lp_balance_at_snapshot == lp_balance_at_snapshot
            &&& record.claimed_at_slot == clock.slot
            &&& record.claimed_at_ts == clock.unix_timestamp
            &&& record.bump == bump
            &&& event.pool_address == *pool_address
            &&& event.lp_holder == *lp_holder
            &&& event.amount_lamports == share
        },
{
    let total = registry.lp_holder_pool_total_lamports;
    let supply = registry.lp_total_supply_at_snapshot;
    if supply == 0 {
        return Err(GraveVaultError::MathOverflow);
    }
    assert((total as int) * (lp_balance_at_snapshot as int) <= u128::MAX) by (nonlinear_arith)
        requires
            total <= u64::MAX,
            lp_balance_at_snapshot <= u64::MAX,
    ;
    let amount: u128 = (total as u128) * (lp_balance_at_snapshot as u128) / (supply as u128);
    proof {
        let x = (total as int) * (lp_balance_at_snapshot as int);
        let sp = supply as int;
        vstd::arithmetic::div_mod::lemma_fundamental_div_mod(x, sp);
        assert(amount * sp <= x < (amount + 1) * sp) by (nonlinear_arith)
            requires
                x == sp * (x / sp) + x % sp,
                0 <= x % sp < sp,
                amount == x / sp,
        ;
    }
    if amount > (u64::MAX as u128) {
        return Err(GraveVaultError::MathOverflow);
    }
    let amount_u64 = amount as u64;
    let new_claimed = match registry.lp_holder_pool_claimed_lamports.checked_add(amount_u64) {
        Some(c) => c,
        None => {
            return Err(GraveVaultError::MathOverflow);
        },
    };
    if new_claimed > total {
        return Err(GraveVaultError::MathOverflow);
    }
    registry.lp_holder_pool_claimed_lamports = new_claimed;

    let record = ClaimRecord {
        pool_address: *pool_address,
        lp_holder: *lp_holder,
        amount_lamports: amount_u64,
        lp_balance_at_snapshot: lp_balance_at_snapshot,
        claimed_at_slot: clock.slot,
        claimed_at_ts: clock.unix_timestamp,
        bump: bump,
    };
    let event = LpClaimProcessed {
        pool_address: *pool_address,
        lp_holder: *lp_holder,
        amount_lamports: amount_u64,
    };
    Ok((record, event))
}

/// Processes an LP-holder claim.
///
/// The proof check against the registry's snapshot root is not wired yet;
/// until it is, no proof is accepted, so every claim is refused with
/// `InvalidClaimProof` and nothing changes. An accepted claim would then be
/// settled by `settle_claim`.
pub fn handler(ctx: &mut ClaimLpProceeds, params: &ClaimLpProceedsParams, clock: &Clock) -> (res:
    Result<(ClaimRecord, LpClaimProcessed), GraveVaultError>)
    ensures
        res == Err::<(ClaimRecord, LpClaimProcessed), GraveVaultError>(GraveVaultError::InvalidClaimProof),
        *final(ctx) == *old(ctx),
{
    Err(GraveVaultError::InvalidClaimProof)
}

} // verus!
