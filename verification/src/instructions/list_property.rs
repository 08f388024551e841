//! Offering a property for sale.

use vstd::prelude::*;

use crate::constants::MIN_PROPERTY_PRICE;
use crate::errors::ErrorCode;
use crate::states::actor::ActorId;
use crate::states::property::{ListingState, Property};

verus! {

/// The listing mode that stands for a direct sale at a fixed price.
pub const LISTING_DIRECT: u8 = 0;

/// The listing mode that stands for a sale by auction.
pub const LISTING_AUCTION: u8 = 1;

/// What a listing works on.
#[derive(Clone, Debug, PartialEq, Eq)]
pub struct ListPropertyCtx {
    pub property: Property,
    /// The caller.
    pub owner: ActorId,
}

/// The first reason, if any, for which the property is not listed: the
/// record is another property; the caller does not own it; it is listed
/// already; the price is below the minimum; the mode is not one of the two.
pub open spec fn list_property_error(
    ctx: ListPropertyCtx,
    property_id: u64,
    price: u64,
    listing_type: u8,
) -> Option<ErrorCode> {
    if ctx.property.property_id != property_id {
        Some(ErrorCode::PropertyNotFound)
    } else if ctx.property.owner != ctx.owner {
        Some(ErrorCode::NotOwner)
    } else if ctx.property.listing_state.listed() {
        Some(ErrorCode::AlreadyListed)
    } else if price < MIN_PROPERTY_PRICE {
        Some(ErrorCode::InvalidPrice)
    } else if listing_type > LISTING_AUCTION {
        Some(ErrorCode::InvalidMode)
    } else {
        None
    }
}

/// The listing state that mode `listing_type` and `price` stand for.
pub open spec fn listing_of(price: u64, listing_type: u8) -> ListingState {
    if listing_type == LISTING_DIRECT {
        ListingState::ListedDirect { price }
    } else {
        ListingState::ListedAuction
    }
}

/// The context after the listing: the property is offered in the given mode.
pub open spec fn list_property_effect(
    ctx: ListPropertyCtx,
    price: u64,
    listing_type: u8,
) -> ListPropertyCtx {
    ListPropertyCtx {
        property: Property { listing_state: listing_of(price, listing_type), ..ctx.property },
        ..ctx
    }
}

/// Lists the caller's property: for direct sale at `price` in mode
/// [`LISTING_DIRECT`], for auction in mode [`LISTING_AUCTION`].
pub fn list_property(
    ctx: &mut ListPropertyCtx,
    property_id: u64,
    price: u64,
    listing_type: u8,
) -> (r: Result<(), ErrorCode>)
    ensures
        match r {
            Ok(_) => {
                &&& list_property_error(*old(ctx), property_id, price, listing_type) is None
                &&& *final(ctx) == list_property_effect(*old(ctx), price, listing_type)
                &&& final(ctx).property.listing_state.listed()
                &&& old(ctx).owner == old(ctx).property.owner
            },
            Err(e) => {
                &&& list_property_error(*old(ctx), property_id, price, listing_type) == Some(e)
                &&& *final(ctx) == *old(ctx)
            },
        },
        old(ctx).property.wf() ==> final(ctx).property.wf(),
{
    if ctx.property.property_id != property_id {
        return Err(ErrorCode::PropertyNotFound);
    }
    if ctx.property.owner != ctx.owner {
        return Err(ErrorCode::NotOwner);
    }
    if ctx.property.listing_state.is_listed() {
        return Err(ErrorCode::AlreadyListed);
    }
    if price < MIN_PROPERTY_PRICE {
        return Err(ErrorCode::InvalidPrice);
    }
    if listing_type > LISTING_AUCTION {
        return Err(ErrorCode::InvalidMode);
    }
    ctx.property.listing_state = if listing_type == LISTING_DIRECT {
        ListingState::ListedDirect { price }
    } else {
        ListingState::ListedAuction
    };
    Ok(())
}

} // verus!
