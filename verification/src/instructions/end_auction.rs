//! Settling an auction whose time is over.

use vstd::prelude::*;

use crate::constants::BASIS_POINTS;
use crate::errors::ErrorCode;
use crate::fees::net_of;
use crate::states::auction::Auction;
use crate::states::marketplace_state::MarketplaceState;
use crate::states::property::{ListingState, Property};
use crate::transfers::{nothing_moves, one_payment, sale_of, Party, Settlement, SettlementView};

verus! {

/// What settling an auction works on.
#[derive(Clone, Debug, PartialEq, Eq)]
pub struct EndAuctionCtx {
    pub marketplace_state: MarketplaceState,
    pub auction: Auction,
    /// The property that the auction is about.
    pub property: Property,
    /// The time of the call.
    pub now: u64,
}

/// The auction ends in a sale: its highest bid reaches the reserve price and
/// there is a bidder behind it.
pub open spec fn sells(auction: Auction) -> bool {
    auction.reserve_met() && auction.highest_bidder is Some
}

/// The auction ends without a sale and holds a bid to pay back.
pub open spec fn refunds(auction: Auction) -> bool {
    !sells(auction) && auction.current_bid > 0 && auction.highest_bidder is Some
}

/// The first reason, if any, for which the auction is not settled: the
/// record is another auction; the auction was settled before; its time is
/// not over; the property record is not the one the auction is about; and,
/// where the auction ends in a sale, the fee on the highest bid exceeds it.
pub open spec fn end_auction_error(ctx: EndAuctionCtx, auction_id: u64) -> Option<ErrorCode> {
    if ctx.auction.auction_id != auction_id {
        Some(ErrorCode::AuctionNotFound)
    } else if ctx.auction.is_ended {
        Some(ErrorCode::AuctionAlreadyEnded)
    } else if ctx.now < ctx.auction.end_time {
        Some(ErrorCode::AuctionNotEnded)
    } else if ctx.property.property_id != ctx.auction.property_id {
        Some(ErrorCode::PropertyNotFound)
    } else if sells(ctx.auction) && net_of(
        ctx.auction.current_bid as nat,
        ctx.marketplace_state.platform_fee as nat,
    ) < 0 {
        Some(ErrorCode::ArithmeticOverflow)
    } else {
        None
    }
}

/// The context after the auction was settled. The auction is ended. Where
/// it ends in a sale, the highest bidder is its winner and owns the
/// property, which is no longer listed. Otherwise the property is as it was.
pub open spec fn end_auction_effect(ctx: EndAuctionCtx) -> EndAuctionCtx {
    if sells(ctx.auction) {
        EndAuctionCtx {
            auction: Auction {
                is_ended: true,
                winner: ctx.auction.highest_bidder,
                ..ctx.auction
            },
            property: Property {
                owner: ctx.auction.highest_bidder->0,
                listing_state: ListingState::NotListed,
                ..ctx.property
            },
            ..ctx
        }
    } else {
        EndAuctionCtx { auction: Auction { is_ended: true, ..ctx.auction }, ..ctx }
    }
}

/// What settling the auction moves, always out of its held balance. In a
/// sale the highest bid is split between seller and treasury and the seller
/// hands the token to the winner. Without a sale the highest bid, if there
/// is one, goes back whole to its bidder.
pub open spec fn end_auction_settlement(ctx: EndAuctionCtx) -> SettlementView {
    let vault = Party::AuctionVault(ctx.auction.auction_id);
    if sells(ctx.auction) {
        sale_of(
            vault,
            ctx.auction.seller,
            ctx.marketplace_state.platform_treasury,
            ctx.auction.highest_bidder->0,
            ctx.property.mint,
            ctx.auction.current_bid,
            ctx.marketplace_state.platform_fee,
        )
    } else if refunds(ctx.auction) {
        one_payment(
            vault,
            Party::Actor(ctx.auction.highest_bidder->0),
            ctx.auction.current_bid,
        )
    } else {
        nothing_moves()
    }
}

/// Settles the auction once its time is over. Whoever calls, an auction is
/// settled once: after that it is ended, and every further call is rejected.
pub fn end_auction(ctx: &mut EndAuctionCtx, auction_id: u64) -> (r: Result<Settlement, ErrorCode>)
    ensures
        match r {
            Ok(settlement) => {
                &&& end_auction_error(*old(ctx), auction_id) is None
                &&& *final(ctx) == end_auction_effect(*old(ctx))
                &&& settlement@ == end_auction_settlement(*old(ctx))
                &&& final(ctx).auction.is_ended
                &&& final(ctx).auction.current_bid == old(ctx).auction.current_bid
            },
            Err(e) => {
                &&& end_auction_error(*old(ctx), auction_id) == Some(e)
                &&& *final(ctx) == *old(ctx)
            },
        },
        old(ctx).marketplace_state.platform_fee <= BASIS_POINTS ==> r != Err::<
            Settlement,
            ErrorCode,
        >(ErrorCode::ArithmeticOverflow),
        old(ctx).auction.wf() ==> final(ctx).auction.wf(),
        old(ctx).property.wf() ==> final(ctx).property.wf(),
{
    if ctx.auction.auction_id != auction_id {
        return Err(ErrorCode::AuctionNotFound);
    }
    if ctx.auction.is_ended {
        return Err(ErrorCode::AuctionAlreadyEnded);
    }
    if ctx.now < ctx.auction.end_time {
        return Err(ErrorCode::AuctionNotEnded);
    }
    if ctx.property.property_id != ctx.auction.property_id {
        return Err(ErrorCode::PropertyNotFound);
    }
    let vault = Party::AuctionVault(ctx.auction.auction_id);
    let settlement = match ctx.auction.highest_bidder {
        Some(bidder) => {
            if ctx.auction.current_bid >= ctx.auction.reserve_price {
                let sale = match Settlement::sale(
                    vault,
                    ctx.auction.seller,
                    ctx.marketplace_state.platform_treasury,
                    bidder,
                    ctx.property.mint,
                    ctx.auction.current_bid,
                    ctx.marketplace_state.platform_fee,
                ) {
                    Ok(s) => s,
                    Err(e) => {
                        return Err(e);
                    },
                };
                ctx.auction.winner = Some(bidder);
                ctx.property.owner = bidder;
                ctx.property.listing_state = ListingState::NotListed;
                sale
            } else if ctx.auction.current_bid > 0 {
                Settlement::payment(vault, Party::Actor(bidder), ctx.auction.current_bid)
            } else {
                Settlement::none()
            }
        },
        None => Settlement::none(),
    };
    ctx.auction.is_ended = true;
    Ok(settlement)
}

} // verus!
