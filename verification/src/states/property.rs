//! A property and the way it is offered for sale.

use vstd::prelude::*;

use crate::errors::TextField;
use crate::states::actor::ActorId;
use crate::text::byte_len;

verus! {

/// How a property is offered. A property is in exactly one of these states.
#[derive(Clone, Copy, Debug, PartialEq, Eq, Structural)]
pub enum ListingState {
    /// Not for sale.
    NotListed,
    /// For sale to the first buyer who pays `price`.
    ListedDirect { price: u64 },
    /// For sale by auction.
    ListedAuction,
}

impl ListingState {
    /// The property is offered in one way or the other.
    pub open spec fn listed(self) -> bool {
        self != ListingState::NotListed
    }

    /// The property is offered in one way or the other.
    pub fn is_listed(&self) -> (yes: bool)
        ensures
            yes == self.listed(),
    {
        match self {
            ListingState::NotListed => false,
            ListingState::ListedDirect { .. } => true,
            ListingState::ListedAuction => true,
        }
    }
}

/// One real-world asset with its ownership token.
#[derive(Clone, Debug, PartialEq, Eq)]
pub struct Property {
    pub property_id: u64,
    pub owner: ActorId,
    /// The token that stands for ownership of the property.
    pub mint: ActorId,
    pub title: String,
    pub description: String,
    pub image_url: String,
    pub location: String,
    pub property_type: String,
    pub size_sqft: u64,
    pub bedrooms: u8,
    pub bathrooms: u8,
    pub year_built: u16,
    pub created_at: u64,
    pub listing_state: ListingState,
}

impl Property {
    /// Every text of the property is within the limit of its field.
    pub open spec fn wf(&self) -> bool {
        &&& byte_len(self.title@) <= TextField::Title.limit()
        &&& byte_len(self.description@) <= TextField::Description.limit()
        &&& byte_len(self.image_url@) <= TextField::ImageUrl.limit()
        &&& byte_len(self.location@) <= TextField::Location.limit()
        &&& byte_len(self.property_type@) <= TextField::PropertyType.limit()
    }
}

} // verus!
