//! Releasing what an escrow holds, to the seller or back to the buyer.

use vstd::prelude::*;

use crate::constants::BASIS_POINTS;
use crate::errors::ErrorCode;
use crate::fees::net_of;
use crate::states::actor::ActorId;
use crate::states::escrow::Escrow;
use crate::states::marketplace_state::MarketplaceState;
use crate::states::property::{ListingState, Property};
use crate::transfers::{one_payment, sale_of, Party, Settlement, SettlementView};

verus! {

/// What a release works on.
#[derive(Clone, Debug, PartialEq, Eq)]
pub struct ReleaseEscrowCtx {
    pub marketplace_state: MarketplaceState,
    pub escrow: Escrow,
    /// The property that the escrow is about.
    pub property: Property,
    /// The caller.
    pub authority: ActorId,
}

/// The first reason, if any, for which the release is rejected: the record
/// is another escrow; the escrow is completed; it holds nothing; the caller
/// is neither its buyer, its seller nor the administrator; the property
/// record is not the one the escrow is about; and, for a release to the
/// seller, the fee on the held amount exceeds that amount.
pub open spec fn release_escrow_error(
    ctx: ReleaseEscrowCtx,
    escrow_id: u64,
    release_to_seller: bool,
) -> Option<ErrorCode> {
    if ctx.escrow.escrow_id != escrow_id {
        Some(ErrorCode::NotFound)
    } else if ctx.escrow.is_completed {
        Some(ErrorCode::AlreadyCompleted)
    } else if ctx.escrow.deposited_amount == 0 {
        Some(ErrorCode::InsufficientBalance)
    } else if ctx.authority != ctx.escrow.buyer && ctx.authority != ctx.escrow.seller
        && ctx.authority != ctx.marketplace_state.admin {
        Some(ErrorCode::Unauthorized)
    } else if ctx.property.property_id != ctx.escrow.property_id {
        Some(ErrorCode::PropertyNotFound)
    } else if release_to_seller && net_of(
        ctx.escrow.deposited_amount as nat,
        ctx.marketplace_state.platform_fee as nat,
    ) < 0 {
        Some(ErrorCode::ArithmeticOverflow)
    } else {
        None
    }
}

/// The context after the release. Either way the escrow is completed and
/// holds nothing. Released to the seller, the buyer owns the property, which
/// is no longer listed; refunded, the property is as it was.
pub open spec fn release_escrow_effect(
    ctx: ReleaseEscrowCtx,
    release_to_seller: bool,
) -> ReleaseEscrowCtx {
    ReleaseEscrowCtx {
        escrow: Escrow {
            deposited_amount: 0,
            is_completed: true,
            released_to_seller: release_to_seller,
            ..ctx.escrow
        },
        property: if release_to_seller {
            Property {
                owner: ctx.escrow.buyer,
                listing_state: ListingState::NotListed,
                ..ctx.property
            }
        } else {
            ctx.property
        },
        ..ctx
    }
}

/// What the release moves, always all that the escrow holds. Released to the
/// seller, it is split between seller and treasury and the seller hands the
/// token to the buyer. Refunded, it goes back to the buyer whole.
pub open spec fn release_escrow_settlement(
    ctx: ReleaseEscrowCtx,
    release_to_seller: bool,
) -> SettlementView {
    if release_to_seller {
        sale_of(
            Party::EscrowVault(ctx.escrow.escrow_id),
            ctx.escrow.seller,
            ctx.marketplace_state.platform_treasury,
            ctx.escrow.buyer,
            ctx.property.mint,
            ctx.escrow.deposited_amount,
            ctx.marketplace_state.platform_fee,
        )
    } else {
        one_payment(
            Party::EscrowVault(ctx.escrow.escrow_id),
            Party::Actor(ctx.escrow.buyer),
            ctx.escrow.deposited_amount,
        )
    }
}

/// Completes the escrow: pays out all it holds, to the seller against the
/// property or back to the buyer.
pub fn release_escrow(
    ctx: &mut ReleaseEscrowCtx,
    escrow_id: u64,
    release_to_seller: bool,
) -> (r: Result<Settlement, ErrorCode>)
    ensures
        match r {
            Ok(settlement) => {
                &&& release_escrow_error(*old(ctx), escrow_id, release_to_seller) is None
                &&& *final(ctx) == release_escrow_effect(*old(ctx), release_to_seller)
                &&& settlement@ == release_escrow_settlement(*old(ctx), release_to_seller)
                &&& {
                    ||| old(ctx).authority == old(ctx).escrow.buyer
                    ||| old(ctx).authority == old(ctx).escrow.seller
                    ||| old(ctx).authority == old(ctx).marketplace_state.admin
                }
            },
            Err(e) => {
                &&& release_escrow_error(*old(ctx), escrow_id, release_to_seller) == Some(e)
                &&& *final(ctx) == *old(ctx)
            },
        },
        old(ctx).marketplace_state.platform_fee <= BASIS_POINTS ==> r != Err::<
            Settlement,
            ErrorCode,
        >(ErrorCode::ArithmeticOverflow),
        old(ctx).escrow.wf() ==> final(ctx).escrow.wf(),
        old(ctx).property.wf() ==> final(ctx).property.wf(),
{
    if ctx.escrow.escrow_id != escrow_id {
        return Err(ErrorCode::NotFound);
    }
    if ctx.escrow.is_completed {
        return Err(ErrorCode::AlreadyCompleted);
    }
    if ctx.escrow.deposited_amount == 0 {
        return Err(ErrorCode::InsufficientBalance);
    }
    if ctx.authority != ctx.escrow.buyer && ctx.authority != ctx.escrow.seller && ctx.authority
        != ctx.marketplace_state.admin {
        return Err(ErrorCode::Unauthorized);
    }
    if ctx.property.property_id != ctx.escrow.property_id {
        return Err(ErrorCode::PropertyNotFound);
    }
    let vault = Party::EscrowVault(ctx.escrow.escrow_id);
    let release_amount: u64 = ctx.escrow.deposited_amount;
    let settlement = if release_to_seller {
        let sale = match Settlement::sale(
            vault,
            ctx.escrow.seller,
            ctx.marketplace_state.platform_treasury,
            ctx.escrow.buyer,
            ctx.property.mint,
            release_amount,
            ctx.marketplace_state.platform_fee,
        ) {
            Ok(s) => s,
            Err(e) => {
                return Err(e);
            },
        };
        ctx.property.owner = ctx.escrow.buyer;
        ctx.property.listing_state = ListingState::NotListed;
        sale
    } else {
        Settlement::payment(vault, Party::Actor(ctx.escrow.buyer), release_amount)
    };
    ctx.escrow.released_to_seller = release_to_seller;
    ctx.escrow.is_completed = true;
    ctx.escrow.deposited_amount = 0;
    Ok(settlement)
}

} // verus!
