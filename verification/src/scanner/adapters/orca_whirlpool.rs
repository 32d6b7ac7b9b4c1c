//! Orca Whirlpool pools. Concentrated liquidity: reserves need token-vault aggregation.

use vstd::prelude::*;

use crate::account::AccountSnapshot;
use crate::pubkey::Pubkey;
use crate::scanner::adapters::PoolData;
use crate::scanner::errors::GraveScannerError;

verus! {

/// Mainnet Orca Whirlpool program (`whirLbMiicVdio4qvUfM5KAg6Ct8VwpYzGff3uctyCc`).
pub const PROGRAM_ID: [u8; 32] = [14, 3, 104, 95, 142, 144, 144, 83, 228, 88, 18, 28, 102, 245, 167, 106, 237, 199, 112, 106, 161, 28, 130, 248, 170, 149, 42, 143, 43, 120, 121, 169];

/// Parses a pool account of this AMM. The layout parser is not written yet,
/// so every pool of this AMM is refused with `AmmAdapterUnimplemented`.
pub fn parse(pool_account: &AccountSnapshot, remaining_accounts: &[AccountSnapshot]) -> (res: Result<PoolData, GraveScannerError>)
    ensures
        res == Err::<PoolData, GraveScannerError>(GraveScannerError::AmmAdapterUnimplemented),
{
    Err(GraveScannerError::AmmAdapterUnimplemented)
}

} // verus!
