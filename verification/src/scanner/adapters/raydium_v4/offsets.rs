//! Byte offsets of the address fields read from a Raydium V4 `AmmInfo`:
//! 16 u64 (128) + fees (64) + state data (144) put the first vault at 336.

use vstd::prelude::*;

verus! {

/// Offset of `coin_vault`.
pub const COIN_VAULT: usize = 336;

/// Offset of `pc_vault`.
pub const PC_VAULT: usize = 368;

/// Offset of `coin_vault_mint`.
pub const COIN_VAULT_MINT: usize = 400;

/// Offset of `pc_vault_mint`.
pub const PC_VAULT_MINT: usize = 432;

/// Offset of `lp_mint`.
pub const LP_MINT: usize = 464;

} // verus!
