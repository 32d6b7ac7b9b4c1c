//! LP-locker introspection for Criterion 5 (no LP tokens locked).
//!
//! The UNCX, PinkSale and Team Finance lockers are not read yet. Refusing,
//! rather than reporting zero, keeps a locked pool from being certified.

use vstd::prelude::*;

use crate::account::AccountSnapshot;
use crate::pubkey::Pubkey;
use crate::scanner::errors::GraveScannerError;

verus! {

/// Sum of LP tokens of `lp_mint` locked across the known lockers. No locker
/// layout is read yet, so every call is refused with
/// `LockerAdapterUnimplemented`.
pub fn locked_lp_amount(lp_mint: &Pubkey, remaining_accounts: &[AccountSnapshot]) -> (res: Result<u64, GraveScannerError>)
    ensures
        res == Err::<u64, GraveScannerError>(GraveScannerError::LockerAdapterUnimplemented),
{
    Err(GraveScannerError::LockerAdapterUnimplemented)
}

} // verus!
