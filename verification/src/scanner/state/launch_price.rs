//! A pool's launch price, the reference for the Criterion 2 collapse check.
//! Address seeds: `["launch_price", amm_program_id, pool_address]`.

use vstd::prelude::*;

use crate::pubkey::Pubkey;

verus! {

/// The reference launch price of a pool, recorded once.
#[derive(Clone, Copy, Debug)]
pub struct LaunchPrice {
    /// The pool's AMM program.
    pub amm_program_id: Pubkey,
    /// The pool this record is for.
    pub pool_address: Pubkey,
    /// Mint of the base (measured) token.
    pub base_mint: Pubkey,
    /// Mint of the quote token.
    pub quote_mint: Pubkey,
    /// Launch price, quote-per-base in Q64.64.
    pub launch_price_q64x64: u128,
    /// Slot at which the price was recorded.
    pub recorded_slot: u64,
    /// Unix time at which the price was recorded.
    pub recorded_at: i64,
    /// Bump of the record's address.
    pub bump: u8,
}

} // verus!
