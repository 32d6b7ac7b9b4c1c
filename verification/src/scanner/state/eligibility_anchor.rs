//! The eligibility anchor: written by Phase 1, consumed (closed) by the
//! Phase 2 certification; an uncertified one may be swept once stale.
//! Address seeds: `["eligibility_anchor", amm_program_id, pool_address]`.

use vstd::prelude::*;

use crate::pubkey::Pubkey;

verus! {

/// Records the first epoch in which a pool met every criterion.
#[derive(Clone, Copy, Debug)]
pub struct EligibilityAnchor {
    /// The pool's AMM program.
    pub amm_program_id: Pubkey,
    /// The pool this anchor is for.
    pub pool_address: Pubkey,
    /// Who paid for and wrote the anchor; its rent returns here on close.
    pub writer: Pubkey,
    /// First epoch in which the pool met all six criteria.
    pub first_eligible_epoch: u64,
    /// Unix time the anchor was written.
    pub written_at: i64,
    /// Set when the multisig invalidates the anchor before certification.
    pub invalidated: bool,
    /// The criteria bitmap Phase 1 produced.
    pub criteria_bitmap: u8,
    /// Bump of the anchor's address.
    pub bump: u8,
}

} // verus!
