//! Limits and rates that the marketplace rules refer to.

use vstd::prelude::*;

verus! {

/// Fee rate, in basis points, that a freshly initialized marketplace charges.
pub const PLATFORM_FEE: u64 = 250;

/// Highest fee rate, in basis points, that the administrator may set.
pub const MAX_PLATFORM_FEE: u64 = 1_000;

/// Basis points in a whole: a rate of `BASIS_POINTS` takes everything.
pub const BASIS_POINTS: u64 = 10_000;

/// Lowest price at which a property may be listed.
pub const MIN_PROPERTY_PRICE: u64 = 1_000_000_000;

/// What a bid has to add, at least, to the bid it replaces.
pub const MIN_BID_INCREMENT: u64 = 100_000_000;

/// Longest time, in seconds, that an auction may run: thirty days.
pub const MAX_AUCTION_DURATION: u64 = 2_592_000;

/// Longest property title, in bytes.
pub const MAX_TITLE_LEN: usize = 64;

/// Longest property description, in bytes.
pub const MAX_DESCRIPTION_LEN: usize = 512;

/// Longest image address, in bytes.
pub const MAX_IMAGE_URL_LEN: usize = 256;

/// Longest location text, in bytes.
pub const MAX_LOCATION_LEN: usize = 128;

/// Longest property type, in bytes.
pub const MAX_PROPERTY_TYPE_LEN: usize = 32;

/// Longest text of escrow conditions, in bytes.
pub const MAX_CONDITIONS_LEN: usize = 256;

} // verus!
