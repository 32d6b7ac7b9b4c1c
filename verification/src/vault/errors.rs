//! Vault error codes. The numbers are the stable on-chain codes.

use vstd::prelude::*;

verus! {

/// Errors raised by the vault program.
#[derive(Clone, Copy, Debug, PartialEq, Eq, Structural)]
pub enum GraveVaultError {
    /// 7000: caller is not the protocol multisig.
    Unauthorized,
    /// 7001: the eligibility certificate is missing, malformed or bound elsewhere.
    InvalidEligibilityCert,
    /// 7002: the eligibility certificate's TTL has passed.
    EligibilityCertExpired,
    /// 7003: the protocol is paused; only `claim_lp_proceeds` is callable.
    ProtocolPaused,
    /// 7004: the LP / salvor / protocol shares do not sum to exactly 10_000 bps.
    InvalidShareSplit,
    /// 7005: the protocol share exceeds the Charter ceiling.
    ProtocolShareExceedsCeiling,
    /// 7006: an attempt to drain the LP-holder pool vault.
    LpHolderPoolUnsweepable,
    /// 7007: slippage exceeds the configured maximum.
    SlippageExceeded,
    /// 7008: the priority fee exceeds the Charter ceiling.
    PriorityFeeExceedsCeiling,
    /// 7009: arithmetic overflow during distribution math.
    MathOverflow,
    /// 7010: the claim proof failed verification against the snapshot root.
    InvalidClaimProof,
    /// 7011: proceeds were already claimed for this holder.
    ClaimAlreadyProcessed,
    /// 7012: quote output below the dust threshold.
    BelowDustThreshold,
    /// 7013: a pre-flight check against the pool failed.
    PreflightFailed,
    /// 7014: the timelock window has not elapsed.
    TimelockNotElapsed,
}

impl GraveVaultError {
    /// The stable on-chain error code.
    pub fn code(&self) -> (code: u32)
        ensures
            7000 <= code <= 7014,
            code == self.spec_code(),
    {
        match self {
            GraveVaultError::Unauthorized => 7000,
            GraveVaultError::InvalidEligibilityCert => 7001,
            GraveVaultError::EligibilityCertExpired => 7002,
            GraveVaultError::ProtocolPaused => 7003,
            GraveVaultError::InvalidShareSplit => 7004,
            GraveVaultError::ProtocolShareExceedsCeiling => 7005,
            GraveVaultError::LpHolderPoolUnsweepable => 7006,
            GraveVaultError::SlippageExceeded => 7007,
            GraveVaultError::PriorityFeeExceedsCeiling => 7008,
            GraveVaultError::MathOverflow => 7009,
            GraveVaultError::InvalidClaimProof => 7010,
            GraveVaultError::ClaimAlreadyProcessed => 7011,
            GraveVaultError::BelowDustThreshold => 7012,
            GraveVaultError::PreflightFailed => 7013,
            GraveVaultError::TimelockNotElapsed => 7014,
        }
    }

    /// The stable on-chain error code, as a spec function.
    pub open spec fn spec_code(self) -> u32 {
        match self {
            GraveVaultError::Unauthorized => 7000,
            GraveVaultError::InvalidEligibilityCert => 7001,
            GraveVaultError::EligibilityCertExpired => 7002,
            GraveVaultError::ProtocolPaused => 7003,
            GraveVaultError::InvalidShareSplit => 7004,
            GraveVaultError::ProtocolShareExceedsCeiling => 7005,
            GraveVaultError::LpHolderPoolUnsweepable => 7006,
            GraveVaultError::SlippageExceeded => 7007,
            GraveVaultError::PriorityFeeExceedsCeiling => 7008,
            GraveVaultError::MathOverflow => 7009,
            GraveVaultError::InvalidClaimProof => 7010,
            GraveVaultError::ClaimAlreadyProcessed => 7011,
            GraveVaultError::BelowDustThreshold => 7012,
            GraveVaultError::PreflightFailed => 7013,
            GraveVaultError::TimelockNotElapsed => 7014,
        }
    }
}

} // verus!
