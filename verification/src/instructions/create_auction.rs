//! Opening the auction of a property that is listed for auction.

use vstd::prelude::*;

use crate::constants::MAX_AUCTION_DURATION;
use crate::errors::ErrorCode;
use crate::states::actor::ActorId;
use crate::states::auction::Auction;
use crate::states::marketplace_state::MarketplaceState;
use crate::states::property::{ListingState, Property};

verus! {

/// What opening an auction works on.
#[derive(Clone, Debug, PartialEq, Eq)]
pub struct CreateAuctionCtx {
    pub marketplace_state: MarketplaceState,
    pub property: Property,
    /// The caller.
    pub seller: ActorId,
    /// The time of the call.
    pub now: u64,
}

/// The first reason, if any, for which the auction is not opened: the record
/// is another property; the caller does not own it; it is not listed for
/// auction; the duration is over the limit; the starting price is zero or
/// the reserve below it; the end time or the auction counter leaves 64 bits.
pub open spec fn create_auction_error(
    ctx: CreateAuctionCtx,
    property_id: u64,
    starting_price: u64,
    reserve_price: u64,
    duration: u64,
) -> Option<ErrorCode> {
    if ctx.property.property_id != property_id {
        Some(ErrorCode::PropertyNotFound)
    } else if ctx.property.owner != ctx.seller {
        Some(ErrorCode::NotOwner)
    } else if ctx.property.listing_state != ListingState::ListedAuction {
        Some(ErrorCode::NotListed)
    } else if duration > MAX_AUCTION_DURATION {
        Some(ErrorCode::InvalidDuration)
    } else if starting_price == 0 || reserve_price < starting_price {
        Some(ErrorCode::InvalidPrice)
    } else if ctx.now + duration > u64::MAX {
        Some(ErrorCode::ArithmeticOverflow)
    } else if ctx.marketplace_state.total_auctions == u64::MAX {
        Some(ErrorCode::ArithmeticOverflow)
    } else {
        None
    }
}

/// The context after the auction was opened: one more auction counted.
pub open spec fn create_auction_effect(ctx: CreateAuctionCtx) -> CreateAuctionCtx {
    CreateAuctionCtx {
        marketplace_state: MarketplaceState {
            total_auctions: (ctx.marketplace_state.total_auctions + 1) as u64,
            ..ctx.marketplace_state
        },
        ..ctx
    }
}

/// The auction that is opened: without a bid, running from the time of the
/// call for `duration` seconds.
pub open spec fn created_auction(
    ctx: CreateAuctionCtx,
    property_id: u64,
    starting_price: u64,
    reserve_price: u64,
    duration: u64,
) -> Auction {
    Auction {
        auction_id: (ctx.marketplace_state.total_auctions + 1) as u64,
        property_id,
        seller: ctx.seller,
        starting_price,
        reserve_price,
        current_bid: 0,
        highest_bidder: None,
        bid_count: 0,
        start_time: ctx.now,
        end_time: (ctx.now + duration) as u64,
        is_ended: false,
        winner: None,
    }
}

/// Opens an auction of the caller's property. Its id is the new value of
/// the auction counter.
pub fn create_auction(
    ctx: &mut CreateAuctionCtx,
    property_id: u64,
    starting_price: u64,
    reserve_price: u64,
    duration: u64,
) -> (r: Result<Auction, ErrorCode>)
    ensures
        match r {
            Ok(auction) => {
                &&& create_auction_error(
                    *old(ctx),
                    property_id,
                    starting_price,
                    reserve_price,
                    duration,
                ) is None
                &&& *final(ctx) == create_auction_effect(*old(ctx))
                &&& auction == created_auction(
                    *old(ctx),
                    property_id,
                    starting_price,
                    reserve_price,
                    duration,
                )
                &&& auction.auction_id == final(ctx).marketplace_state.total_auctions
                &&& auction.auction_id == old(ctx).marketplace_state.total_auctions + 1
                &&& auction.end_time == old(ctx).now + duration
                &&& auction.seller == old(ctx).property.owner
                &&& auction.wf()
            },
            Err(e) => {
                &&& create_auction_error(
                    *old(ctx),
                    property_id,
                    starting_price,
                    reserve_price,
                    duration,
                ) == Some(e)
                &&& *final(ctx) == *old(ctx)
            },
        },
{
    if ctx.property.property_id != property_id {
        return Err(ErrorCode::PropertyNotFound);
    }
    if ctx.property.owner != ctx.seller {
        return Err(ErrorCode::NotOwner);
    }
    match ctx.property.listing_state {
        ListingState::ListedAuction => {},
        _ => {
            return Err(ErrorCode::NotListed);
        },
    }
    if duration > MAX_AUCTION_DURATION {
        return Err(ErrorCode::InvalidDuration);
    }
    if starting_price == 0 || reserve_price < starting_price {
        return Err(ErrorCode::InvalidPrice);
    }
    let end_time: u64 = match ctx.now.checked_add(duration) {
        Some(t) => t,
        None => {
            return Err(ErrorCode::ArithmeticOverflow);
        },
    };
    let auction_id: u64 = match ctx.marketplace_state.total_auctions.checked_add(1) {
        Some(id) => id,
        None => {
            return Err(ErrorCode::ArithmeticOverflow);
        },
    };
    ctx.marketplace_state.total_auctions = auction_id;
    Ok(
        Auction {
            auction_id,
            property_id,
            seller: ctx.seller,
            starting_price,
            reserve_price,
            current_bid: 0,
            highest_bidder: None,
            bid_count: 0,
            start_time: ctx.now,
            end_time,
            is_ended: false,
            winner: None,
        },
    )
}

} // verus!
