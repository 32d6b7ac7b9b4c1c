//! Multisig-only, immediate: sets or clears the emergency pause. Only
//! salvages are gated by it; LP-holder claims stay open.

use vstd::prelude::*;

use crate::pubkey::Pubkey;
use crate::vault::errors::GraveVaultError;
use crate::vault::state::ProtocolConfig;

verus! {

/// The accounts the instruction reads and writes.
#[derive(Clone, Copy, Debug)]
pub struct EmergencyPause {
    /// The vault config; its authority must sign.
    pub protocol_config: ProtocolConfig,
    /// The signer.
    pub authority: Pubkey,
}

/// Event emitted when the pause flag is set.
#[derive(Clone, Copy, Debug)]
pub struct ProtocolPauseChanged {
    pub paused: bool,
    pub changed_by: Pubkey,
}

/// Sets the pause flag to `paused` when the signer is the config's
/// authority; otherwise refuses with `Unauthorized` and changes nothing.
/// Nothing else in the config changes.
pub fn handler(ctx: &mut EmergencyPause, paused: bool) -> (res: Result<ProtocolPauseChanged, GraveVaultError>)
    ensures
        res is Ok <==> old(ctx).protocol_config.authority@ == old(ctx).authority@,
        res is Err ==> res == Err::<ProtocolPauseChanged, GraveVaultError>(GraveVaultError::Unauthorized)
            && *final(ctx) == *old(ctx),
        res matches Ok(event) ==> {
            &&& final(ctx).protocol_config == (ProtocolConfig {
                emergency_paused: paused,
                ..old(ctx).protocol_config
            })
            &&& final(ctx).authority == old(ctx).authority
            &&& event.paused == paused
            &&& event.changed_by == old(ctx).authority
        },
        old(ctx).protocol_config.well_formed() ==> final(ctx).protocol_config.well_formed(),
{
    if !ctx.protocol_config.authority.same_as(&ctx.authority) {
        return Err(GraveVaultError::Unauthorized);
    }
    ctx.protocol_config.emergency_paused = paused;
    Ok(ProtocolPauseChanged { paused: paused, changed_by: ctx.authority })
}

} // verus!
