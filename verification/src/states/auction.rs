//! An English auction of one property.

use vstd::prelude::*;

use crate::constants::MIN_BID_INCREMENT;
use crate::states::actor::ActorId;

verus! {

/// An auction and its highest bid so far. It is open until `is_ended`, and
/// never open again after that.
#[derive(Clone, Copy, Debug, PartialEq, Eq)]
pub struct Auction {
    pub auction_id: u64,
    pub property_id: u64,
    pub seller: ActorId,
    pub starting_price: u64,
    pub reserve_price: u64,
    /// The highest bid so far, zero while there is none.
    pub current_bid: u64,
    /// Who placed `current_bid`, and whose money the auction holds.
    pub highest_bidder: Option<ActorId>,
    pub bid_count: u64,
    pub start_time: u64,
    pub end_time: u64,
    pub is_ended: bool,
    /// Who bought the property, once the auction ended with the reserve met.
    pub winner: Option<ActorId>,
}

impl Auction {
    /// The least amount that the next bid has to offer: the starting price
    /// for the first bid, the current bid and the minimum increment after.
    pub open spec fn min_bid(&self) -> int {
        if self.current_bid == 0 {
            self.starting_price as int
        } else {
            self.current_bid + MIN_BID_INCREMENT
        }
    }

    /// The least amount that the next bid has to offer, or `None` where it
    /// is beyond 64 bits, so that no bid can reach it.
    pub fn minimum_bid(&self) -> (least: Option<u64>)
        ensures
            match least {
                Some(amount) => amount == self.min_bid(),
                None => self.min_bid() > u64::MAX,
            },
    {
        if self.current_bid == 0 {
            Some(self.starting_price)
        } else {
            self.current_bid.checked_add(MIN_BID_INCREMENT)
        }
    }

    /// The highest bid reaches the reserve price.
    pub open spec fn reserve_met(&self) -> bool {
        self.current_bid >= self.reserve_price
    }

    /// What the auction holds of its highest bidder's money: the current
    /// bid while it is open, nothing once it is settled.
    pub open spec fn held(&self) -> nat {
        if self.is_ended {
            0
        } else {
            self.current_bid as nat
        }
    }

    /// What a consistent auction looks like. There is a highest bidder
    /// exactly when there is a bid, no bid is below the starting price, and
    /// a winner is the highest bidder of an ended auction that met its reserve.
    pub open spec fn wf(&self) -> bool {
        &&& self.starting_price > 0
        &&& self.reserve_price >= self.starting_price
        &&& self.start_time <= self.end_time
        &&& self.highest_bidder is Some <==> self.current_bid > 0
        &&& self.bid_count > 0 <==> self.current_bid > 0
        &&& self.current_bid > 0 ==> self.current_bid >= self.starting_price
        &&& self.winner is Some ==> self.is_ended && self.reserve_met() && self.winner
            == self.highest_bidder
        &&& self.is_ended && self.reserve_met() ==> self.winner == self.highest_bidder
    }
}

} // verus!
