//! The one global record of the marketplace.

use vstd::prelude::*;

use crate::constants::MAX_PLATFORM_FEE;
use crate::states::actor::ActorId;

verus! {

/// Global configuration and counters. Each counter is the number of records
/// of its kind made so far, and so the id of the newest of them.
#[derive(Clone, Copy, Debug, PartialEq, Eq)]
pub struct MarketplaceState {
    pub initialized: bool,
    pub total_properties: u64,
    pub total_auctions: u64,
    pub total_escrows: u64,
    /// Fee rate in basis points.
    pub platform_fee: u64,
    /// Who receives the fees.
    pub platform_treasury: ActorId,
    /// Who may change fee rate and treasury.
    pub admin: ActorId,
}

impl MarketplaceState {
    /// The fee rate is one that the platform allows.
    pub open spec fn fee_in_range(&self) -> bool {
        self.platform_fee <= MAX_PLATFORM_FEE
    }
}

} // verus!
