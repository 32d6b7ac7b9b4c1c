//! Multisig-only, immediate: marks an eligibility anchor invalidated so it
//! can never be certified. Conveys no salvage authority.

use vstd::prelude::*;

use crate::pubkey::Pubkey;
use crate::scanner::errors::GraveScannerError;
use crate::scanner::state::{EligibilityAnchor, ProtocolConfig};

verus! {

/// Instruction arguments (they select the anchor's address).
#[derive(Clone, Copy, Debug)]
pub struct InvalidateAnchorParams {
    pub amm_program_id: Pubkey,
    pub pool_address: Pubkey,
}

/// The accounts the instruction reads and writes.
#[derive(Clone, Copy, Debug)]
pub struct InvalidateAnchor {
    /// The scanner config; its authority must sign.
    pub protocol_config: ProtocolConfig,
    /// The anchor to invalidate.
    pub eligibility_anchor: EligibilityAnchor,
    /// The signer.
    pub authority: Pubkey,
}

/// Event emitted on invalidation.
#[derive(Clone, Copy, Debug)]
pub struct AnchorInvalidated {
    pub amm_program_id: Pubkey,
    pub pool_address: Pubkey,
    pub invalidated_by: Pubkey,
}

/// Invalidates the anchor when the signer is the config's authority;
/// otherwise refuses with `Unauthorized` and changes nothing.
pub fn handler(ctx: &mut InvalidateAnchor, params: &InvalidateAnchorParams) -> (res: Result<
    AnchorInvalidated,
    GraveScannerError,
>)
    ensures
        res is Ok <==> old(ctx).protocol_config.authority@ == old(ctx).authority@,
        res is Err ==> res == Err::<AnchorInvalidated, GraveScannerError>(GraveScannerError::Unauthorized)
            && *final(ctx) == *old(ctx),
        res matches Ok(event) ==> {
            &&& final(ctx).eligibility_anchor == (EligibilityAnchor {
                invalidated: true,
                ..old(ctx).eligibility_anchor
            })
            &&& final(ctx).protocol_config == old(ctx).protocol_config
            &&& final(ctx).authority == old(ctx).authority
            &&& event.amm_program_id == old(ctx).eligibility_anchor.amm_program_id
            &&& event.pool_address == old(ctx).eligibility_anchor.pool_address
            &&& event.invalidated_by == old(ctx).authority
        },
{
    if !ctx.protocol_config.authority.same_as(&ctx.authority) {
        return Err(GraveScannerError::Unauthorized);
    }
    ctx.eligibility_anchor.invalidated = true;
    Ok(
        AnchorInvalidated {
            amm_program_id: ctx.eligibility_anchor.amm_program_id,
            pool_address: ctx.eligibility_anchor.pool_address,
            invalidated_by: ctx.authority,
        },
    )
}

} // verus!
