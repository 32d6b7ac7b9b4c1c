//! Raydium CLMM (concentrated liquidity) pools. Reserves would have to be aggregated over the active tick ranges.

use vstd::prelude::*;

use crate::account::AccountSnapshot;
use crate::pubkey::Pubkey;
use crate::scanner::adapters::PoolData;
use crate::scanner::errors::GraveScannerError;

verus! {

/// Mainnet Raydium CLMM program (`CAMMCzo5YL8w4VFF8KVHrK22GGUsp5VTaW7grrKgrWqK`).
pub const PROGRAM_ID: [u8; 32] = [165, 213, 202, 158, 4, 207, 93, 181, 144, 183, 20, 186, 47, 227, 44, 177, 89, 19, 63, 193, 193, 146, 183, 34, 87, 253, 7, 211, 156, 176, 64, 30];

/// Parses a pool account of this AMM. The layout parser is not written yet,
/// so every pool of this AMM is refused with `AmmAdapterUnimplemented`.
pub fn parse(pool_account: &AccountSnapshot, remaining_accounts: &[AccountSnapshot]) -> (res: Result<PoolData, GraveScannerError>)
    ensures
        res == Err::<PoolData, GraveScannerError>(GraveScannerError::AmmAdapterUnimplemented),
{
    Err(GraveScannerError::AmmAdapterUnimplemented)
}

} // verus!
