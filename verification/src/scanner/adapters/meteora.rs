//! Meteora (DLMM and Dynamic AMM) pools.

use vstd::prelude::*;

use crate::account::AccountSnapshot;
use crate::pubkey::Pubkey;
use crate::scanner::adapters::PoolData;
use crate::scanner::errors::GraveScannerError;

verus! {

/// Meteora DLMM program (`LBUZKhRxPF3XUpBCjp4YzTKgLccjZhTSDM9YuVaPwxo`); the mainnet address is still to be confirmed.
pub const PROGRAM_ID: [u8; 32] = [4, 233, 225, 47, 188, 132, 232, 38, 201, 50, 204, 233, 226, 100, 12, 206, 21, 89, 12, 28, 98, 115, 176, 146, 87, 8, 186, 59, 133, 32, 176, 188];

/// Parses a pool account of this AMM. The layout parser is not written yet,
/// so every pool of this AMM is refused with `AmmAdapterUnimplemented`.
pub fn parse(pool_account: &AccountSnapshot, remaining_accounts: &[AccountSnapshot]) -> (res: Result<PoolData, GraveScannerError>)
    ensures
        res == Err::<PoolData, GraveScannerError>(GraveScannerError::AmmAdapterUnimplemented),
{
    Err(GraveScannerError::AmmAdapterUnimplemented)
}

} // verus!
