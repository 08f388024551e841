//! The operations of the marketplace, one module each.
//!
//! An operation takes a context, which holds the records it works on, the
//! identity of the caller and, where it matters, the time. It checks its
//! conditions in a fixed order and reports the first that fails, with the
//! context left as it was. Otherwise it changes the records in the context
//! and returns what was created and what has to be transferred.

pub mod buy_direct;
pub mod cancel_listing;
pub mod create_auction;
pub mod create_escrow;
pub mod create_property;
pub mod deposit_escrow;
pub mod end_auction;
pub mod initialize;
pub mod list_property;
pub mod place_bid;
pub mod release_escrow;
pub mod update_platform_settings;
