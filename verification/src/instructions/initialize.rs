//! Setting up the marketplace.

use vstd::prelude::*;

use crate::constants::PLATFORM_FEE;
use crate::errors::ErrorCode;
use crate::states::actor::ActorId;
use crate::states::marketplace_state::MarketplaceState;

verus! {

/// What the set-up works on.
#[derive(Clone, Copy, Debug, PartialEq, Eq)]
pub struct InitializeCtx {
    pub marketplace_state: MarketplaceState,
    /// The caller, who becomes administrator and treasury.
    pub admin: ActorId,
}

/// The configuration of a marketplace that `admin` has just set up: nothing
/// counted yet, the default fee rate, and `admin` as administrator and
/// treasury.
pub open spec fn initial_state(admin: ActorId) -> MarketplaceState {
    MarketplaceState {
        initialized: true,
        total_properties: 0,
        total_auctions: 0,
        total_escrows: 0,
        platform_fee: PLATFORM_FEE,
        platform_treasury: admin,
        admin,
    }
}

/// Sets up the marketplace for the caller, once. A marketplace that is set
/// up already is left as it is.
pub fn initialize(ctx: &mut InitializeCtx) -> (r: Result<(), ErrorCode>)
    ensures
        r == if old(ctx).marketplace_state.initialized {
            Err::<(), ErrorCode>(ErrorCode::AlreadyInitialized)
        } else {
            Ok::<(), ErrorCode>(())
        },
        *final(ctx) == if old(ctx).marketplace_state.initialized {
            *old(ctx)
        } else {
            (InitializeCtx { marketplace_state: initial_state(old(ctx).admin), ..*old(ctx) })
        },
        r is Ok ==> final(ctx).marketplace_state.fee_in_range(),
{
    if ctx.marketplace_state.initialized {
        return Err(ErrorCode::AlreadyInitialized);
    }
    ctx.marketplace_state.initialized = true;
    ctx.marketplace_state.total_properties = 0;
    ctx.marketplace_state.total_auctions = 0;
    ctx.marketplace_state.total_escrows = 0;
    ctx.marketplace_state.platform_fee = PLATFORM_FEE;
    ctx.marketplace_state.platform_treasury = ctx.admin;
    ctx.marketplace_state.admin = ctx.admin;
    Ok(())
}

} // verus!
