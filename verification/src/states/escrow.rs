//! An escrow between the seller of a property and a buyer.

use vstd::prelude::*;

use crate::constants::MAX_CONDITIONS_LEN;
use crate::states::actor::ActorId;
use crate::text::byte_len;

verus! {

/// Value held for a sale until one side releases it. Deposits add up without
/// a cap: they may exceed `amount`, and a release always moves all of them.
#[derive(Clone, Debug, PartialEq, Eq)]
pub struct Escrow {
    pub escrow_id: u64,
    pub property_id: u64,
    pub seller: ActorId,
    pub buyer: ActorId,
    /// The amount the two sides agreed on.
    pub amount: u64,
    /// What has been paid in and is held.
    pub deposited_amount: u64,
    pub conditions: String,
    pub created_at: u64,
    pub is_completed: bool,
    pub released_to_seller: bool,
}

impl Escrow {
    /// What a consistent escrow looks like: its conditions are within their
    /// limit, a completed one holds nothing, and only a completed one can
    /// have been released to the seller.
    pub open spec fn wf(&self) -> bool {
        &&& self.amount > 0
        &&& byte_len(self.conditions@) <= MAX_CONDITIONS_LEN
        &&& self.is_completed ==> self.deposited_amount == 0
        &&& self.released_to_seller ==> self.is_completed
    }
}

} // verus!
