//! PumpSwap (pump.fun graduated AMM) pools: a two-vault shape like Raydium V4, with different field offsets.

use vstd::prelude::*;

use crate::account::AccountSnapshot;
use crate::pubkey::Pubkey;
use crate::scanner::adapters::PoolData;
use crate::scanner::errors::GraveScannerError;

verus! {

/// Mainnet PumpSwap program (`PSwapMdSai8tjrEXcxFeQth87xC4rRsa4VA5mhGhXkP`).
pub const PROGRAM_ID: [u8; 32] = [5, 192, 28, 6, 228, 111, 65, 144, 199, 117, 94, 44, 37, 237, 12, 214, 178, 4, 68, 30, 29, 18, 139, 121, 223, 97, 24, 41, 39, 135, 97, 60];

/// Parses a pool account of this AMM. The layout parser is not written yet,
/// so every pool of this AMM is refused with `AmmAdapterUnimplemented`.
pub fn parse(pool_account: &AccountSnapshot, remaining_accounts: &[AccountSnapshot]) -> (res: Result<PoolData, GraveScannerError>)
    ensures
        res == Err::<PoolData, GraveScannerError>(GraveScannerError::AmmAdapterUnimplemented),
{
    Err(GraveScannerError::AmmAdapterUnimplemented)
}

} // verus!
