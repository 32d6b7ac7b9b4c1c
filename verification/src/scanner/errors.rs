//! Scanner error codes. The numbers are the stable on-chain codes.

use vstd::prelude::*;

verus! {

/// Errors raised by the scanner program.
#[derive(Clone, Copy, Debug, PartialEq, Eq, Structural)]
pub enum GraveScannerError {
    /// 6000: caller is not the protocol multisig.
    Unauthorized,
    /// 6001: the pool does not satisfy all six derelict-pool criteria.
    PoolNotEligible,
    /// 6002: no launch price is recorded for this pool.
    LaunchPriceNotFound,
    /// 6003: AMM program mismatch or unsupported pool layout.
    UnsupportedAmm,
    /// 6004: arithmetic overflow during eligibility math.
    MathOverflow,
    /// 6005: the clock is unavailable or returned invalid data.
    InvalidClock,
    /// 6006: a config update violates a locked invariant.
    InvariantViolation,
    /// 6007: the AMM adapter's parser is not implemented yet.
    AmmAdapterUnimplemented,
    /// 6008: the locker adapter is not implemented yet.
    LockerAdapterUnimplemented,
    /// 6009: pool account data did not match the expected layout.
    PoolDataParseError,
    /// 6010: the scanner is paused; pool evaluation is disabled.
    ProtocolPaused,
    /// 6011: the Phase 2 bitmap does not match the anchor's bitmap.
    CriteriaBitmapMismatch,
    /// 6015: Phase 2 attempted without an eligibility anchor.
    AnchorNotFound,
    /// 6016: Phase 2 attempted inside the epoch confirmation gap.
    EpochConfirmationPending,
    /// 6017: the anchor was invalidated by the multisig.
    AnchorInvalidated,
    /// 6018: the anchor's staleness window has not elapsed yet.
    AnchorNotStale,
    /// 6019: a certificate TTL below the hard floor was supplied.
    CertTtlBelowMinimum,
}

impl GraveScannerError {
    /// The stable on-chain error code.
    pub fn code(&self) -> (code: u32)
        ensures
            6000 <= code <= 6019,
            code == self.spec_code(),
    {
        match self {
            GraveScannerError::Unauthorized => 6000,
            GraveScannerError::PoolNotEligible => 6001,
            GraveScannerError::LaunchPriceNotFound => 6002,
            GraveScannerError::UnsupportedAmm => 6003,
            GraveScannerError::MathOverflow => 6004,
            GraveScannerError::InvalidClock => 6005,
            GraveScannerError::InvariantViolation => 6006,
            GraveScannerError::AmmAdapterUnimplemented => 6007,
            GraveScannerError::LockerAdapterUnimplemented => 6008,
            GraveScannerError::PoolDataParseError => 6009,
            GraveScannerError::ProtocolPaused => 6010,
            GraveScannerError::CriteriaBitmapMismatch => 6011,
            GraveScannerError::AnchorNotFound => 6015,
            GraveScannerError::EpochConfirmationPending => 6016,
            GraveScannerError::AnchorInvalidated => 6017,
            GraveScannerError::AnchorNotStale => 6018,
            GraveScannerError::CertTtlBelowMinimum => 6019,
        }
    }

    /// The stable on-chain error code, as a spec function.
    pub open spec fn spec_code(self) -> u32 {
        match self {
            GraveScannerError::Unauthorized => 6000,
            GraveScannerError::PoolNotEligible => 6001,
            GraveScannerError::LaunchPriceNotFound => 6002,
            GraveScannerError::UnsupportedAmm => 6003,
            GraveScannerError::MathOverflow => 6004,
            GraveScannerError::InvalidClock => 6005,
            GraveScannerError::InvariantViolation => 6006,
            GraveScannerError::AmmAdapterUnimplemented => 6007,
            GraveScannerError::LockerAdapterUnimplemented => 6008,
            GraveScannerError::PoolDataParseError => 6009,
            GraveScannerError::ProtocolPaused => 6010,
            GraveScannerError::CriteriaBitmapMismatch => 6011,
            GraveScannerError::AnchorNotFound => 6015,
            GraveScannerError::EpochConfirmationPending => 6016,
            GraveScannerError::AnchorInvalidated => 6017,
            GraveScannerError::AnchorNotStale => 6018,
            GraveScannerError::CertTtlBelowMinimum => 6019,
        }
    }
}

/// Distinct scanner errors carry distinct on-chain codes.
pub proof fn scanner_error_codes_are_distinct(a: GraveScannerError, b: GraveScannerError)
    ensures
        a.spec_code() == b.spec_code() ==> a == b,
{
}

} // verus!
