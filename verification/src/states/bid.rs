//! The record of one accepted bid.

use vstd::prelude::*;

use crate::states::actor::ActorId;

verus! {

/// An accepted bid, as it stood when it was accepted. Never changed afterwards.
#[derive(Clone, Copy, Debug, PartialEq, Eq)]
pub struct Bid {
    pub auction_id: u64,
    pub bidder: ActorId,
    pub amount: u64,
    pub timestamp: u64,
    /// The bid was the highest when it was placed.
    pub is_winning: bool,
}

} // verus!
