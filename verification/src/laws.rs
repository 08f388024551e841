//! What holds across operations: laws that relate one call to the next, and
//! the bookkeeping of the balances that auctions and escrows hold.

use vstd::prelude::*;

use crate::errors::ErrorCode;
use crate::fees::{fee_of, net_of};
use crate::instructions::buy_direct::{
    buy_direct_effect, buy_direct_error, buy_direct_settlement, BuyDirectCtx,
};
use crate::instructions::cancel_listing::{
    cancel_listing_effect, cancel_listing_error, CancelListingCtx,
};
use crate::instructions::deposit_escrow::{
    deposit_escrow_error, deposit_escrow_settlement, DepositEscrowCtx,
};
use crate::instructions::end_auction::{
    end_auction_effect, end_auction_error, end_auction_settlement, refunds, sells, EndAuctionCtx,
};
use crate::instructions::list_property::{
    list_property_effect, list_property_error, ListPropertyCtx,
};
use crate::instructions::place_bid::{
    outbids, place_bid_effect, place_bid_error, place_bid_settlement, PlaceBidCtx,
};
use crate::instructions::release_escrow::{
    release_escrow_effect, release_escrow_error, release_escrow_settlement, ReleaseEscrowCtx,
};
use crate::states::actor::ActorId;
use crate::states::property::ListingState;
use crate::transfers::{
    one_payment, paid_by, paid_to, sale_of, AssetTransfer, Party, Payment,
};

verus! {

/// Listing a property and cancelling the listing gives back the property as
/// it was: not listed, with no price, and nothing else changed.
pub proof fn lemma_cancel_undoes_list(
    ctx: ListPropertyCtx,
    property_id: u64,
    price: u64,
    listing_type: u8,
)
    requires
        list_property_error(ctx, property_id, price, listing_type) is None,
    ensures
        ({
            let listed = list_property_effect(ctx, price, listing_type);
            let again = CancelListingCtx { property: listed.property, owner: listed.owner };
            &&& cancel_listing_error(again, property_id) is None
            &&& cancel_listing_effect(again).property.listing_state == ListingState::NotListed
            &&& cancel_listing_effect(again).property == ctx.property
        }),
{
}

/// An auction is settled once. After a call that settled it, every further
/// call on the auction as that call left it is rejected as already ended,
/// whatever the time, the property and the configuration it is made with. Being
/// rejected, it changes nothing and asks for no transfer.
pub proof fn lemma_end_auction_once(first: EndAuctionCtx, again: EndAuctionCtx, auction_id: u64)
    requires
        end_auction_error(first, auction_id) is None,
        again.auction == end_auction_effect(first).auction,
    ensures
        end_auction_error(again, auction_id) == Some(ErrorCode::AuctionAlreadyEnded),
{
}

/// An ended auction is final: it takes no bid either.
pub proof fn lemma_ended_auction_takes_no_bid(ctx: PlaceBidCtx, bid_amount: u64)
    requires
        ctx.auction.is_ended,
    ensures
        place_bid_error(ctx, ctx.auction.auction_id, bid_amount) == Some(ErrorCode::AuctionEnded),
{
}

/// A completed escrow is final: it takes no deposit and cannot be released
/// again, whoever asks.
pub proof fn lemma_completed_escrow_is_final(
    deposit: DepositEscrowCtx,
    release: ReleaseEscrowCtx,
    amount: u64,
    release_to_seller: bool,
)
    requires
        deposit.escrow.is_completed,
        release.escrow.is_completed,
    ensures
        deposit_escrow_error(deposit, deposit.escrow.escrow_id, amount) == Some(
            ErrorCode::AlreadyCompleted,
        ),
        release_escrow_error(release, release.escrow.escrow_id, release_to_seller) == Some(
            ErrorCode::AlreadyCompleted,
        ),
{
}

/// What a single payment moves.
pub proof fn lemma_one_payment_totals(from: Party, to: Party, amount: u64, party: Party)
    ensures
        paid_by(one_payment(from, to, amount).payments, party) == if party == from {
            amount as nat
        } else {
            0
        },
        paid_to(one_payment(from, to, amount).payments, party) == if party == to {
            amount as nat
        } else {
            0
        },
{
    let payments = one_payment(from, to, amount).payments;
    assert(payments.drop_last() =~= Seq::<Payment>::empty());
    reveal_with_fuel(paid_by, 2);
    reveal_with_fuel(paid_to, 2);
}

/// In a sale the payer pays the whole amount, no more and no less, and
/// seller and treasury together receive it: the seller the net amount and
/// the treasury the fee, or all of it where they are the same. Nobody else
/// pays, and nobody else is paid.
pub proof fn lemma_sale_moves_the_amount(
    payer: Party,
    seller: ActorId,
    treasury: ActorId,
    buyer: ActorId,
    mint: ActorId,
    amount: u64,
    fee_bps: u64,
    party: Party,
)
    requires
        net_of(amount as nat, fee_bps as nat) >= 0,
    ensures
        ({
            let payments = sale_of(payer, seller, treasury, buyer, mint, amount, fee_bps).payments;
            let net_amount = net_of(amount as nat, fee_bps as nat);
            let fee = fee_of(amount as nat, fee_bps as nat);
            &&& paid_by(payments, payer) == amount
            &&& party != payer ==> paid_by(payments, party) == 0
            &&& seller != treasury ==> {
                &&& paid_to(payments, Party::Actor(seller)) == net_amount
                &&& paid_to(payments, Party::Actor(treasury)) == fee
            }
            &&& seller == treasury ==> paid_to(payments, Party::Actor(seller)) == amount
            &&& party != Party::Actor(seller) && party != Party::Actor(treasury) ==> paid_to(
                payments,
                party,
            ) == 0
        }),
{
    let payments = sale_of(payer, seller, treasury, buyer, mint, amount, fee_bps).payments;
    let first = payments[0];
    assert(payments.drop_last() =~= seq![first]);
    assert(payments.drop_last().drop_last() =~= Seq::<Payment>::empty());
    reveal_with_fuel(paid_by, 3);
    reveal_with_fuel(paid_to, 3);
}

/// Ownership and money move together in a direct sale: the settlement hands
/// the token from the owner to the buyer, who is the owner afterwards, and
/// the buyer pays the listed price, not more and not less.
pub proof fn lemma_direct_sale_moves_owner_with_price(ctx: BuyDirectCtx, property_id: u64)
    requires
        buy_direct_error(ctx, property_id) is None,
    ensures
        ({
            let settlement = buy_direct_settlement(ctx);
            &&& settlement.asset == Some(
                AssetTransfer { mint: ctx.property.mint, from: ctx.property.owner, to: ctx.buyer },
            )
            &&& buy_direct_effect(ctx).property.owner == ctx.buyer
            &&& paid_by(settlement.payments, Party::Actor(ctx.buyer))
                == ctx.property.listing_state->price
        }),
{
    lemma_sale_moves_the_amount(
        Party::Actor(ctx.buyer),
        ctx.property.owner,
        ctx.marketplace_state.platform_treasury,
        ctx.buyer,
        ctx.property.mint,
        ctx.property.listing_state->price,
        ctx.marketplace_state.platform_fee,
        Party::Actor(ctx.buyer),
    );
}

/// Ownership and money move together when an auction is settled: the
/// property changes its owner exactly when the settlement hands the token
/// over, which is exactly when the auction ends in a sale, and the new owner
/// is the highest bidder, who receives the token. Without a sale the
/// property is left as it was.
pub proof fn lemma_auction_moves_owner_with_token(ctx: EndAuctionCtx, auction_id: u64)
    requires
        end_auction_error(ctx, auction_id) is None,
    ensures
        ({
            let settlement = end_auction_settlement(ctx);
            let after = end_auction_effect(ctx);
            &&& settlement.asset is Some <==> sells(ctx.auction)
            &&& sells(ctx.auction) ==> {
                &&& settlement.asset == Some(
                    AssetTransfer {
                        mint: ctx.property.mint,
                        from: ctx.auction.seller,
                        to: ctx.auction.highest_bidder->0,
                    },
                )
                &&& after.property.owner == ctx.auction.highest_bidder->0
                &&& after.auction.winner == ctx.auction.highest_bidder
            }
            &&& !sells(ctx.auction) ==> after.property == ctx.property && after.auction.winner
                == ctx.auction.winner
        }),
{
}

/// Ownership and money move together when an escrow is released: the
/// property changes its owner exactly when the settlement hands the token
/// over, which is exactly when the escrow is released to the seller, and the
/// new owner is the buyer, who receives the token. After a refund the
/// property is left as it was.
pub proof fn lemma_escrow_moves_owner_with_token(
    ctx: ReleaseEscrowCtx,
    escrow_id: u64,
    release_to_seller: bool,
)
    requires
        release_escrow_error(ctx, escrow_id, release_to_seller) is None,
    ensures
        ({
            let settlement = release_escrow_settlement(ctx, release_to_seller);
            let after = release_escrow_effect(ctx, release_to_seller);
            &&& settlement.asset is Some <==> release_to_seller
            &&& release_to_seller ==> {
                &&& settlement.asset == Some(
                    AssetTransfer {
                        mint: ctx.property.mint,
                        from: ctx.escrow.seller,
                        to: ctx.escrow.buyer,
                    },
                )
                &&& after.property.owner == ctx.escrow.buyer
            }
            &&& !release_to_seller ==> after.property == ctx.property
        }),
{
}

/// Settling a consistent auction pays out of its held balance exactly what
/// it holds, and pays nothing in: afterwards the auction holds nothing.
pub proof fn lemma_end_auction_empties_vault(ctx: EndAuctionCtx, auction_id: u64)
    requires
        ctx.auction.wf(),
        end_auction_error(ctx, auction_id) is None,
    ensures
        ({
            let vault = Party::AuctionVault(ctx.auction.auction_id);
            let payments = end_auction_settlement(ctx).payments;
            &&& paid_by(payments, vault) == ctx.auction.held()
            &&& paid_to(payments, vault) == 0
            &&& end_auction_effect(ctx).auction.held() == 0
        }),
{
    let vault = Party::AuctionVault(ctx.auction.auction_id);
    if sells(ctx.auction) {
        lemma_sale_moves_the_amount(
            vault,
            ctx.auction.seller,
            ctx.marketplace_state.platform_treasury,
            ctx.auction.highest_bidder->0,
            ctx.property.mint,
            ctx.auction.current_bid,
            ctx.marketplace_state.platform_fee,
            vault,
        );
    } else if refunds(ctx.auction) {
        lemma_one_payment_totals(
            vault,
            Party::Actor(ctx.auction.highest_bidder->0),
            ctx.auction.current_bid,
            vault,
        );
    } else {
    }
}

/// An accepted bid keeps the books of a consistent auction: what comes into
/// its held balance less what leaves it is the change of what it holds, and
/// what it holds afterwards is the new current bid.
pub proof fn lemma_place_bid_balances_vault(ctx: PlaceBidCtx, auction_id: u64, bid_amount: u64)
    requires
        ctx.auction.wf(),
        place_bid_error(ctx, auction_id, bid_amount) is None,
    ensures
        ({
            let vault = Party::AuctionVault(ctx.auction.auction_id);
            let payments = place_bid_settlement(ctx, bid_amount).payments;
            &&& paid_to(payments, vault) == bid_amount
            &&& paid_by(payments, vault) == ctx.auction.held()
            &&& place_bid_effect(ctx, bid_amount).auction.held() == bid_amount
        }),
{
    let vault = Party::AuctionVault(ctx.auction.auction_id);
    let payments = place_bid_settlement(ctx, bid_amount).payments;
    reveal_with_fuel(paid_by, 3);
    reveal_with_fuel(paid_to, 3);
    if outbids(ctx.auction) {
        assert(payments.drop_last() =~= seq![payments[0]]);
        assert(payments.drop_last().drop_last() =~= Seq::<Payment>::empty());
    } else {
        assert(payments.drop_last() =~= Seq::<Payment>::empty());
    }
}

/// A deposit pays its amount into the escrow's held balance and nothing out.
pub proof fn lemma_deposit_fills_vault(ctx: DepositEscrowCtx, escrow_id: u64, amount: u64)
    requires
        deposit_escrow_error(ctx, escrow_id, amount) is None,
    ensures
        ({
            let vault = Party::EscrowVault(ctx.escrow.escrow_id);
            let payments = deposit_escrow_settlement(ctx, amount).payments;
            &&& paid_to(payments, vault) == amount
            &&& paid_by(payments, vault) == 0
        }),
{
    let vault = Party::EscrowVault(ctx.escrow.escrow_id);
    lemma_one_payment_totals(Party::Actor(ctx.depositor), vault, amount, vault);
}

/// A release pays out of the escrow's held balance all that was deposited,
/// whichever way it goes, and leaves the escrow holding nothing.
pub proof fn lemma_release_empties_vault(
    ctx: ReleaseEscrowCtx,
    escrow_id: u64,
    release_to_seller: bool,
)
    requires
        release_escrow_error(ctx, escrow_id, release_to_seller) is None,
    ensures
        ({
            let vault = Party::EscrowVault(ctx.escrow.escrow_id);
            let payments = release_escrow_settlement(ctx, release_to_seller).payments;
            &&& paid_by(payments, vault) == ctx.escrow.deposited_amount
            &&& paid_to(payments, vault) == 0
            &&& release_escrow_effect(ctx, release_to_seller).escrow.deposited_amount == 0
        }),
{
    let vault = Party::EscrowVault(ctx.escrow.escrow_id);
    if release_to_seller {
        lemma_sale_moves_the_amount(
            vault,
            ctx.escrow.seller,
            ctx.marketplace_state.platform_treasury,
            ctx.escrow.buyer,
            ctx.property.mint,
            ctx.escrow.deposited_amount,
            ctx.marketplace_state.platform_fee,
            vault,
        );
    } else {
        lemma_one_payment_totals(
            vault,
            Party::Actor(ctx.escrow.buyer),
            ctx.escrow.deposited_amount,
            vault,
        );
    }
}

} // verus!
