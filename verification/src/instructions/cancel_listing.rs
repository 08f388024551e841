//! Withdrawing a property from sale.

use vstd::prelude::*;

use crate::errors::ErrorCode;
use crate::states::actor::ActorId;
use crate::states::property::{ListingState, Property};

verus! {

/// What a cancellation works on.
#[derive(Clone, Debug, PartialEq, Eq)]
pub struct CancelListingCtx {
    pub property: Property,
    /// The caller.
    pub owner: ActorId,
}

/// The first reason, if any, for which the listing is not cancelled: the
/// record is another property; the caller does not own it; it is not listed.
pub open spec fn cancel_listing_error(
    ctx: CancelListingCtx,
    property_id: u64,
) -> Option<ErrorCode> {
    if ctx.property.property_id != property_id {
        Some(ErrorCode::PropertyNotFound)
    } else if ctx.property.owner != ctx.owner {
        Some(ErrorCode::NotOwner)
    } else if !ctx.property.listing_state.listed() {
        Some(ErrorCode::NotListed)
    } else {
        None
    }
}

/// The context after the cancellation: the property is not listed, and so
/// has no price.
pub open spec fn cancel_listing_effect(ctx: CancelListingCtx) -> CancelListingCtx {
    CancelListingCtx {
        property: Property { listing_state: ListingState::NotListed, ..ctx.property },
        ..ctx
    }
}

/// Takes the caller's property off the market.
pub fn cancel_listing(ctx: &mut CancelListingCtx, property_id: u64) -> (r: Result<(), ErrorCode>)
    ensures
        match r {
            Ok(_) => {
                &&& cancel_listing_error(*old(ctx), property_id) is None
                &&& *final(ctx) == cancel_listing_effect(*old(ctx))
                &&& final(ctx).property.listing_state == ListingState::NotListed
                &&& old(ctx).owner == old(ctx).property.owner
            },
            Err(e) => {
                &&& cancel_listing_error(*old(ctx), property_id) == Some(e)
                &&& *final(ctx) == *old(ctx)
            },
        },
        old(ctx).property.wf() ==> final(ctx).property.wf(),
{
    if ctx.property.property_id != property_id {
        return Err(ErrorCode::PropertyNotFound);
    }
    if ctx.property.owner != ctx.owner {
        return Err(ErrorCode::NotOwner);
    }
    if !ctx.property.listing_state.is_listed() {
        return Err(ErrorCode::NotListed);
    }
    ctx.property.listing_state = ListingState::NotListed;
    Ok(())
}

} // verus!
