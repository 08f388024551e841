//! Changing the fee rate and the treasury.

use vstd::prelude::*;

use crate::constants::MAX_PLATFORM_FEE;
use crate::errors::ErrorCode;
use crate::states::actor::ActorId;
use crate::states::marketplace_state::MarketplaceState;

verus! {

/// What a change of settings works on.
#[derive(Clone, Copy, Debug, PartialEq, Eq)]
pub struct UpdatePlatformSettingsCtx {
    pub marketplace_state: MarketplaceState,
    /// The caller.
    pub admin: ActorId,
}

/// The first reason, if any, for which the settings are not changed: the
/// caller is not the administrator; the new fee rate is over the maximum.
pub open spec fn update_platform_settings_error(
    ctx: UpdatePlatformSettingsCtx,
    new_fee: Option<u64>,
) -> Option<ErrorCode> {
    if ctx.marketplace_state.admin != ctx.admin {
        Some(ErrorCode::Unauthorized)
    } else if new_fee is Some && new_fee->0 > MAX_PLATFORM_FEE {
        Some(ErrorCode::InvalidFee)
    } else {
        None
    }
}

/// The context after the change: each setting that was given is replaced,
/// each that was not is kept.
pub open spec fn update_platform_settings_effect(
    ctx: UpdatePlatformSettingsCtx,
    new_fee: Option<u64>,
    new_treasury: Option<ActorId>,
) -> UpdatePlatformSettingsCtx {
    UpdatePlatformSettingsCtx {
        marketplace_state: MarketplaceState {
            platform_fee: match new_fee {
                Some(fee) => fee,
                None => ctx.marketplace_state.platform_fee,
            },
            platform_treasury: match new_treasury {
                Some(treasury) => treasury,
                None => ctx.marketplace_state.platform_treasury,
            },
            ..ctx.marketplace_state
        },
        ..ctx
    }
}

/// Sets the fee rate, the treasury, both or neither, for the administrator.
pub fn update_platform_settings(
    ctx: &mut UpdatePlatformSettingsCtx,
    new_fee: Option<u64>,
    new_treasury: Option<ActorId>,
) -> (r: Result<(), ErrorCode>)
    ensures
        match r {
            Ok(_) => {
                &&& update_platform_settings_error(*old(ctx), new_fee) is None
                &&& *final(ctx) == update_platform_settings_effect(
                    *old(ctx),
                    new_fee,
                    new_treasury,
                )
                &&& old(ctx).admin == old(ctx).marketplace_state.admin
            },
            Err(e) => {
                &&& update_platform_settings_error(*old(ctx), new_fee) == Some(e)
                &&& *final(ctx) == *old(ctx)
            },
        },
        old(ctx).marketplace_state.fee_in_range() ==> final(ctx).marketplace_state.fee_in_range(),
{
    if ctx.marketplace_state.admin != ctx.admin {
        return Err(ErrorCode::Unauthorized);
    }
    match new_fee {
        Some(fee) => {
            if fee > MAX_PLATFORM_FEE {
                return Err(ErrorCode::InvalidFee);
            }
            ctx.marketplace_state.platform_fee = fee;
        },
        None => {},
    }
    match new_treasury {
        Some(treasury) => {
            ctx.marketplace_state.platform_treasury = treasury;
        },
        None => {},
    }
    Ok(())
}

} // verus!
