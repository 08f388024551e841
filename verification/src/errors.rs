//! The reasons for which an operation is rejected.

use vstd::prelude::*;

use crate::constants::{
    MAX_DESCRIPTION_LEN, MAX_IMAGE_URL_LEN, MAX_LOCATION_LEN, MAX_PROPERTY_TYPE_LEN,
    MAX_TITLE_LEN,
};

verus! {

/// The bounded text fields of a property.
#[derive(Clone, Copy, Debug, PartialEq, Eq, Structural)]
pub enum TextField {
    Title,
    Description,
    ImageUrl,
    Location,
    PropertyType,
}

impl TextField {
    /// The longest text, in bytes, that the field takes.
    pub open spec fn limit(self) -> nat {
        match self {
            TextField::Title => MAX_TITLE_LEN as nat,
            TextField::Description => MAX_DESCRIPTION_LEN as nat,
            TextField::ImageUrl => MAX_IMAGE_URL_LEN as nat,
            TextField::Location => MAX_LOCATION_LEN as nat,
            TextField::PropertyType => MAX_PROPERTY_TYPE_LEN as nat,
        }
    }

    /// The longest text, in bytes, that the field takes.
    pub fn max_len(self) -> (n: usize)
        ensures
            n == self.limit(),
    {
        match self {
            TextField::Title => MAX_TITLE_LEN,
            TextField::Description => MAX_DESCRIPTION_LEN,
            TextField::ImageUrl => MAX_IMAGE_URL_LEN,
            TextField::Location => MAX_LOCATION_LEN,
            TextField::PropertyType => MAX_PROPERTY_TYPE_LEN,
        }
    }
}

/// Why an operation was rejected. A rejected operation has changed nothing.
#[derive(Clone, Copy, Debug, PartialEq, Eq, Structural)]
pub enum ErrorCode {
    /// The marketplace configuration was set up before.
    AlreadyInitialized,
    /// A text field of a property is longer than its limit.
    FieldTooLong { field: TextField },
    /// The property record is not the one the operation names.
    PropertyNotFound,
    /// The caller does not own the property.
    NotOwner,
    /// The property is listed already.
    AlreadyListed,
    /// A price is below the minimum, zero, or a reserve below its starting price.
    InvalidPrice,
    /// The listing mode is neither direct sale nor auction.
    InvalidMode,
    /// The property is not listed, or not in the way the operation needs.
    NotListed,
    /// Buyer or bidder is the seller.
    SelfTrade,
    /// The auction would run longer than allowed.
    InvalidDuration,
    /// The auction record is not the one the operation names.
    AuctionNotFound,
    /// The auction takes no more bids: it was settled, or its time is over.
    AuctionEnded,
    /// The auction was settled before.
    AuctionAlreadyEnded,
    /// The auction's time is not over yet.
    AuctionNotEnded,
    /// The bid is below the least amount the auction accepts now.
    BidTooLow,
    /// The escrow conditions are longer than their limit.
    ConditionsTooLong,
    /// An escrow amount or deposit of zero.
    InvalidAmount,
    /// The escrow record is not the one the operation names.
    NotFound,
    /// The escrow was released or refunded before.
    AlreadyCompleted,
    /// The escrow holds nothing to release.
    InsufficientBalance,
    /// The caller has not the role the operation asks for.
    Unauthorized,
    /// The fee rate is above the highest the platform allows.
    InvalidFee,
    /// A counter, a time or an amount left the range of 64 bits.
    ArithmeticOverflow,
}

} // verus!
