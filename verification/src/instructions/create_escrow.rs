//! Setting up an escrow for the sale of a listed property.

use vstd::prelude::*;

use crate::constants::MAX_CONDITIONS_LEN;
use crate::errors::ErrorCode;
use crate::states::actor::ActorId;
use crate::states::escrow::Escrow;
use crate::states::marketplace_state::MarketplaceState;
use crate::states::property::Property;
use crate::text::{byte_len, fits};

verus! {

/// What setting up an escrow works on.
#[derive(Clone, Debug, PartialEq, Eq)]
pub struct CreateEscrowCtx {
    pub marketplace_state: MarketplaceState,
    pub property: Property,
    /// The caller, who is the seller of record.
    pub seller: ActorId,
    /// The time of the call.
    pub now: u64,
}

/// The first reason, if any, for which the escrow is not set up: the record
/// is another property; the caller does not own it; it is not listed; the
/// conditions are over their limit; the amount is zero; the escrow counter
/// is exhausted.
pub open spec fn create_escrow_error(
    ctx: CreateEscrowCtx,
    property_id: u64,
    amount: u64,
    conditions: Seq<char>,
) -> Option<ErrorCode> {
    if ctx.property.property_id != property_id {
        Some(ErrorCode::PropertyNotFound)
    } else if ctx.property.owner != ctx.seller {
        Some(ErrorCode::NotOwner)
    } else if !ctx.property.listing_state.listed() {
        Some(ErrorCode::NotListed)
    } else if byte_len(conditions) > MAX_CONDITIONS_LEN {
        Some(ErrorCode::ConditionsTooLong)
    } else if amount == 0 {
        Some(ErrorCode::InvalidAmount)
    } else if ctx.marketplace_state.total_escrows == u64::MAX {
        Some(ErrorCode::ArithmeticOverflow)
    } else {
        None
    }
}

/// The context after the escrow was set up: one more escrow counted.
pub open spec fn create_escrow_effect(ctx: CreateEscrowCtx) -> CreateEscrowCtx {
    CreateEscrowCtx {
        marketplace_state: MarketplaceState {
            total_escrows: (ctx.marketplace_state.total_escrows + 1) as u64,
            ..ctx.marketplace_state
        },
        ..ctx
    }
}

/// Sets up an escrow between the caller, who owns the property, and
/// `buyer`. Its id is the new value of the escrow counter; it holds nothing
/// yet and is not completed.
pub fn create_escrow(
    ctx: &mut CreateEscrowCtx,
    property_id: u64,
    buyer: ActorId,
    amount: u64,
    conditions: String,
) -> (r: Result<Escrow, ErrorCode>)
    ensures
        match r {
            Ok(escrow) => {
                &&& create_escrow_error(*old(ctx), property_id, amount, conditions@) is None
                &&& *final(ctx) == create_escrow_effect(*old(ctx))
                &&& escrow == (Escrow {
                    escrow_id: final(ctx).marketplace_state.total_escrows,
                    property_id,
                    seller: old(ctx).seller,
                    buyer,
                    amount,
                    deposited_amount: 0,
                    conditions,
                    created_at: old(ctx).now,
                    is_completed: false,
                    released_to_seller: false,
                })
                &&& escrow.escrow_id == old(ctx).marketplace_state.total_escrows + 1
                &&& escrow.seller == old(ctx).property.owner
                &&& escrow.wf()
            },
            Err(e) => {
                &&& create_escrow_error(*old(ctx), property_id, amount, conditions@) == Some(e)
                &&& *final(ctx) == *old(ctx)
            },
        },
{
    if ctx.property.property_id != property_id {
        return Err(ErrorCode::PropertyNotFound);
    }
    if ctx.property.owner != ctx.seller {
        return Err(ErrorCode::NotOwner);
    }
    if !ctx.property.listing_state.is_listed() {
        return Err(ErrorCode::NotListed);
    }
    if !fits(&conditions, MAX_CONDITIONS_LEN) {
        return Err(ErrorCode::ConditionsTooLong);
    }
    if amount == 0 {
        return Err(ErrorCode::InvalidAmount);
    }
    let escrow_id: u64 = match ctx.marketplace_state.total_escrows.checked_add(1) {
        Some(id) => id,
        None => {
            return Err(ErrorCode::ArithmeticOverflow);
        },
    };
    ctx.marketplace_state.total_escrows = escrow_id;
    Ok(
        Escrow {
            escrow_id,
            property_id,
            seller: ctx.seller,
            buyer,
            amount,
            deposited_amount: 0,
            conditions,
            created_at: ctx.now,
            is_completed: false,
            released_to_seller: false,
        },
    )
}

} // verus!
