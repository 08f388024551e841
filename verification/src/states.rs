//! The records of the marketplace and the identities that act on them.

pub mod actor;
pub mod auction;
pub mod bid;
pub mod escrow;
pub mod marketplace_state;
pub mod property;

pub use actor::ActorId;
pub use auction::Auction;
pub use bid::Bid;
pub use escrow::Escrow;
pub use marketplace_state::MarketplaceState;
pub use property::{ListingState, Property};
