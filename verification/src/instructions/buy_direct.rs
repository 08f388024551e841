//! Buying a property at its listed price.

use vstd::prelude::*;

use crate::constants::BASIS_POINTS;
use crate::errors::ErrorCode;
use crate::fees::net_of;
use crate::states::actor::ActorId;
use crate::states::marketplace_state::MarketplaceState;
use crate::states::property::{ListingState, Property};
use crate::transfers::{sale_of, Party, Settlement, SettlementView};

verus! {

/// What a direct purchase works on.
#[derive(Clone, Debug, PartialEq, Eq)]
pub struct BuyDirectCtx {
    pub marketplace_state: MarketplaceState,
    pub property: Property,
    /// The caller, who pays and becomes the owner.
    pub buyer: ActorId,
}

/// The first reason, if any, for which the purchase is rejected: the record
/// is another property; the property is not listed for direct sale; the
/// buyer owns it; the fee on the price exceeds the price.
pub open spec fn buy_direct_error(ctx: BuyDirectCtx, property_id: u64) -> Option<ErrorCode> {
    if ctx.property.property_id != property_id {
        Some(ErrorCode::PropertyNotFound)
    } else if !(ctx.property.listing_state is ListedDirect) {
        Some(ErrorCode::NotListed)
    } else if ctx.property.owner == ctx.buyer {
        Some(ErrorCode::SelfTrade)
    } else if net_of(
        ctx.property.listing_state->price as nat,
        ctx.marketplace_state.platform_fee as nat,
    ) < 0 {
        Some(ErrorCode::ArithmeticOverflow)
    } else {
        None
    }
}

/// The context after the purchase: the buyer owns the property, which is no
/// longer listed.
pub open spec fn buy_direct_effect(ctx: BuyDirectCtx) -> BuyDirectCtx {
    BuyDirectCtx {
        property: Property {
            owner: ctx.buyer,
            listing_state: ListingState::NotListed,
            ..ctx.property
        },
        ..ctx
    }
}

/// What the purchase moves: the buyer pays the owner the price less the fee
/// and the treasury the fee, and the owner hands the token to the buyer.
pub open spec fn buy_direct_settlement(ctx: BuyDirectCtx) -> SettlementView {
    sale_of(
        Party::Actor(ctx.buyer),
        ctx.property.owner,
        ctx.marketplace_state.platform_treasury,
        ctx.buyer,
        ctx.property.mint,
        ctx.property.listing_state->price,
        ctx.marketplace_state.platform_fee,
    )
}

/// Sells the property to the caller at its listed price. Payment and change
/// of ownership come together: the returned settlement holds both payments
/// and the hand-over, and the property in the context has its new owner.
pub fn buy_direct(ctx: &mut BuyDirectCtx, property_id: u64) -> (r: Result<Settlement, ErrorCode>)
    ensures
        match r {
            Ok(settlement) => {
                &&& buy_direct_error(*old(ctx), property_id) is None
                &&& *final(ctx) == buy_direct_effect(*old(ctx))
                &&& settlement@ == buy_direct_settlement(*old(ctx))
                &&& old(ctx).buyer != old(ctx).property.owner
                &&& final(ctx).property.owner == old(ctx).buyer
            },
            Err(e) => {
                &&& buy_direct_error(*old(ctx), property_id) == Some(e)
                &&& *final(ctx) == *old(ctx)
            },
        },
        old(ctx).property.wf() ==> final(ctx).property.wf(),
        old(ctx).marketplace_state.platform_fee <= BASIS_POINTS ==> r != Err::<
            Settlement,
            ErrorCode,
        >(ErrorCode::ArithmeticOverflow),
{
    if ctx.property.property_id != property_id {
        return Err(ErrorCode::PropertyNotFound);
    }
    let sale_price: u64 = match ctx.property.listing_state {
        ListingState::ListedDirect { price } => price,
        _ => {
            return Err(ErrorCode::NotListed);
        },
    };
    if ctx.property.owner == ctx.buyer {
        return Err(ErrorCode::SelfTrade);
    }
    let settlement = match Settlement::sale(
        Party::Actor(ctx.buyer),
        ctx.property.owner,
        ctx.marketplace_state.platform_treasury,
        ctx.buyer,
        ctx.property.mint,
        sale_price,
        ctx.marketplace_state.platform_fee,
    ) {
        Ok(s) => s,
        Err(e) => {
            return Err(e);
        },
    };
    ctx.property.owner = ctx.buyer;
    ctx.property.listing_state = ListingState::NotListed;
    Ok(settlement)
}

} // verus!
