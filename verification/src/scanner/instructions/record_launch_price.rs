//! Records a pool's launch price (taken from the caller as given).

use vstd::prelude::*;

use crate::clock::Clock;
use crate::pubkey::Pubkey;
use crate::scanner::state::LaunchPrice;

verus! {

/// Instruction arguments.
#[derive(Clone, Copy, Debug)]
pub struct RecordLaunchPriceParams {
    pub amm_program_id: Pubkey,
    pub pool_address: Pubkey,
    pub base_mint: Pubkey,
    pub quote_mint: Pubkey,
    /// Launch price, quote-per-base in Q64.64.
    pub launch_price_q64x64: u128,
}

/// The accounts the instruction reads.
#[derive(Clone, Copy, Debug)]
pub struct RecordLaunchPrice {
    /// The signer paying for the record.
    pub payer: Pubkey,
    /// Bump of the record's address.
    pub launch_price_bump: u8,
}

/// Builds the launch-price record, stamped with the current slot and time.
pub fn handler(ctx: &RecordLaunchPrice, params: &RecordLaunchPriceParams, clock: &Clock) -> (record: LaunchPrice)
    ensures
        record.amm_program_id == params.amm_program_id,
        record.pool_address == params.pool_address,
        record.base_mint == params.base_mint,
        record.quote_mint == params.quote_mint,
        record.launch_price_q64x64 == params.launch_price_q64x64,
        record.recorded_slot == clock.slot,
        record.recorded_at == clock.unix_timestamp,
        record.bump == ctx.launch_price_bump,
{
    LaunchPrice {
        amm_program_id: params.amm_program_id,
        pool_address: params.pool_address,
        base_mint: params.base_mint,
        quote_mint: params.quote_mint,
        launch_price_q64x64: params.launch_price_q64x64,
        recorded_slot: clock.slot,
        recorded_at: clock.unix_timestamp,
        bump: ctx.launch_price_bump,
    }
}

} // verus!
