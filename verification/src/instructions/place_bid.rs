//! Bidding in an auction.

use vstd::prelude::*;

use crate::errors::ErrorCode;
use crate::states::actor::ActorId;
use crate::states::auction::Auction;
use crate::states::bid::Bid;
use crate::transfers::{Party, Payment, Settlement, SettlementView};

verus! {

/// What a bid works on.
#[derive(Clone, Copy, Debug, PartialEq, Eq)]
pub struct PlaceBidCtx {
    pub auction: Auction,
    /// The caller.
    pub bidder: ActorId,
    /// The time of the call.
    pub now: u64,
}

/// What an accepted bid leaves behind: its record, and the payments that
/// come with it.
#[derive(Clone, Debug, PartialEq, Eq)]
pub struct BidReceipt {
    pub bid: Bid,
    pub settlement: Settlement,
}

/// The first reason, if any, for which the bid is rejected: the record is
/// another auction; the auction is settled or its time is over; the bidder
/// is the seller; the amount is below the least the auction accepts now; the
/// count of bids is exhausted.
pub open spec fn place_bid_error(
    ctx: PlaceBidCtx,
    auction_id: u64,
    bid_amount: u64,
) -> Option<ErrorCode> {
    if ctx.auction.auction_id != auction_id {
        Some(ErrorCode::AuctionNotFound)
    } else if ctx.auction.is_ended || ctx.now > ctx.auction.end_time {
        Some(ErrorCode::AuctionEnded)
    } else if ctx.auction.seller == ctx.bidder {
        Some(ErrorCode::SelfTrade)
    } else if bid_amount < ctx.auction.min_bid() {
        Some(ErrorCode::BidTooLow)
    } else if ctx.auction.bid_count == u64::MAX {
        Some(ErrorCode::ArithmeticOverflow)
    } else {
        None
    }
}

/// The context after the bid was accepted: it is the current bid, its
/// bidder the highest bidder, and one more bid is counted.
pub open spec fn place_bid_effect(ctx: PlaceBidCtx, bid_amount: u64) -> PlaceBidCtx {
    PlaceBidCtx {
        auction: Auction {
            current_bid: bid_amount,
            highest_bidder: Some(ctx.bidder),
            bid_count: (ctx.auction.bid_count + 1) as u64,
            ..ctx.auction
        },
        ..ctx
    }
}

/// The record of the accepted bid.
pub open spec fn placed_bid(ctx: PlaceBidCtx, bid_amount: u64) -> Bid {
    Bid {
        auction_id: ctx.auction.auction_id,
        bidder: ctx.bidder,
        amount: bid_amount,
        timestamp: ctx.now,
        is_winning: true,
    }
}

/// There is a bidder whose bid the auction holds and a new bid replaces.
pub open spec fn outbids(auction: Auction) -> bool {
    auction.highest_bidder is Some && auction.current_bid > 0
}

/// What the accepted bid moves: the bidder pays the amount into the
/// auction's held balance, and the bid that it replaces, if there is one, is
/// paid back from there to the bidder who made it. The auction so never
/// holds more than its current bid.
pub open spec fn place_bid_settlement(ctx: PlaceBidCtx, bid_amount: u64) -> SettlementView {
    let vault = Party::AuctionVault(ctx.auction.auction_id);
    let deposit = Payment { from: Party::Actor(ctx.bidder), to: vault, amount: bid_amount };
    SettlementView {
        payments: if outbids(ctx.auction) {
            seq![
                deposit,
                Payment {
                    from: vault,
                    to: Party::Actor(ctx.auction.highest_bidder->0),
                    amount: ctx.auction.current_bid,
                },
            ]
        } else {
            seq![deposit]
        },
        asset: None,
    }
}

/// Places a bid of `bid_amount` for the caller.
///
/// An accepted bid becomes the current bid and is at least the minimum bid
/// of the auction as it was. A rejected bid leaves the auction untouched.
///
/// A bidder who is outbid is paid back in the same step: the settlement of
/// the new bid returns the bid it replaces. No bid is left behind in the
/// auction's held balance, and there is nothing to claim later.
pub fn place_bid(
    ctx: &mut PlaceBidCtx,
    auction_id: u64,
    bid_amount: u64,
) -> (r: Result<BidReceipt, ErrorCode>)
    ensures
        match r {
            Ok(receipt) => {
                &&& place_bid_error(*old(ctx), auction_id, bid_amount) is None
                &&& *final(ctx) == place_bid_effect(*old(ctx), bid_amount)
                &&& receipt.bid == placed_bid(*old(ctx), bid_amount)
                &&& receipt.settlement@ == place_bid_settlement(*old(ctx), bid_amount)
                &&& final(ctx).auction.current_bid == bid_amount
                &&& bid_amount >= old(ctx).auction.min_bid()
                &&& old(ctx).bidder != old(ctx).auction.seller
            },
            Err(e) => {
                &&& place_bid_error(*old(ctx), auction_id, bid_amount) == Some(e)
                &&& *final(ctx) == *old(ctx)
                &&& final(ctx).auction.current_bid == old(ctx).auction.current_bid
                &&& final(ctx).auction.highest_bidder == old(ctx).auction.highest_bidder
                &&& final(ctx).auction.bid_count == old(ctx).auction.bid_count
            },
        },
        final(ctx).auction.current_bid >= old(ctx).auction.current_bid,
        old(ctx).auction.wf() ==> final(ctx).auction.wf(),
{
    if ctx.auction.auction_id != auction_id {
        return Err(ErrorCode::AuctionNotFound);
    }
    if ctx.auction.is_ended || ctx.now > ctx.auction.end_time {
        return Err(ErrorCode::AuctionEnded);
    }
    if ctx.auction.seller == ctx.bidder {
        return Err(ErrorCode::SelfTrade);
    }
    let too_low = match ctx.auction.minimum_bid() {
        Some(least) => bid_amount < least,
        None => true,
    };
    if too_low {
        return Err(ErrorCode::BidTooLow);
    }
    let bid_count: u64 = match ctx.auction.bid_count.checked_add(1) {
        Some(n) => n,
        None => {
            return Err(ErrorCode::ArithmeticOverflow);
        },
    };
    let vault = Party::AuctionVault(ctx.auction.auction_id);
    let deposit = Payment { from: Party::Actor(ctx.bidder), to: vault, amount: bid_amount };
    let mut payments: Vec<Payment> = Vec::new();
    payments.push(deposit);
    match ctx.auction.highest_bidder {
        Some(previous) => {
            if ctx.auction.current_bid > 0 {
                let refund = Payment {
                    from: vault,
                    to: Party::Actor(previous),
                    amount: ctx.auction.current_bid,
                };
                payments.push(refund);
                assert(payments@ =~= seq![deposit, refund]);
            } else {
                assert(payments@ =~= seq![deposit]);
            }
        },
        None => {
            assert(payments@ =~= seq![deposit]);
        },
    }
    let bid = Bid {
        auction_id: ctx.auction.auction_id,
        bidder: ctx.bidder,
        amount: bid_amount,
        timestamp: ctx.now,
        is_winning: true,
    };
    ctx.auction.current_bid = bid_amount;
    ctx.auction.highest_bidder = Some(ctx.bidder);
    ctx.auction.bid_count = bid_count;
    Ok(BidReceipt { bid, settlement: Settlement { payments, asset: None } })
}

} // verus!
