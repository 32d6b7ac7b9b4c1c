//! The eligibility certificate: written by Phase 2, consumed by the vault's
//! salvage. Address seeds: `["eligibility_cert", amm_program_id, pool_address]`.

use vstd::prelude::*;

use crate::pubkey::Pubkey;

verus! {

/// Certifies that a pool passed all six criteria twice, at least the
/// confirmation gap apart; valid until `expires_at`.
#[derive(Clone, Copy, Debug)]
pub struct EligibilityCert {
    /// The pool's AMM program.
    pub amm_program_id: Pubkey,
    /// The pool this certificate is for.
    pub pool_address: Pubkey,
    /// Who paid for and wrote the certificate.
    pub writer: Pubkey,
    /// Epoch of the originating anchor.
    pub anchor_epoch: u64,
    /// Epoch in which this certificate was written.
    pub cert_epoch: u64,
    /// Unix time of issue.
    pub issued_at: i64,
    /// Unix time at which the certificate expires.
    pub expires_at: i64,
    /// Criteria bitmap validated at Phase 2.
    pub criteria_bitmap: u8,
    /// Bump of the certificate's address.
    pub bump: u8,
}

impl EligibilityCert {
    /// True once `now` reaches `expires_at`; the vault refuses an expired
    /// certificate.
    pub fn is_expired(&self, now: i64) -> (expired: bool)
        ensures
            expired == (now >= self.expires_at),
    {
        now >= self.expires_at
    }
}

} // verus!
