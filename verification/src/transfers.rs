//! The transfers that an accepted operation asks for.
//!
//! The rules decide who pays whom and who hands the asset token to whom; the
//! host moves value and tokens. An operation that was accepted returns a
//! [`Settlement`]: the host carries it out in the same atomic unit in which
//! it stores the changed records, and drops both if any transfer fails.

use vstd::prelude::*;

use crate::constants::BASIS_POINTS;
use crate::errors::ErrorCode;
use crate::fees::{fee_of, net, net_of};
use crate::states::actor::ActorId;

verus! {

/// Where value sits: with an actor, or in the balance that an auction or an
/// escrow holds until it is settled.
#[derive(Clone, Copy, Debug, PartialEq, Eq)]
pub enum Party {
    Actor(ActorId),
    /// The held balance of the auction with this id.
    AuctionVault(u64),
    /// The held balance of the escrow with this id.
    EscrowVault(u64),
}

/// One movement of value.
#[derive(Clone, Copy, Debug, PartialEq, Eq)]
pub struct Payment {
    pub from: Party,
    pub to: Party,
    pub amount: u64,
}

/// The hand-over of the one ownership token of a property.
#[derive(Clone, Copy, Debug, PartialEq, Eq)]
pub struct AssetTransfer {
    pub mint: ActorId,
    pub from: ActorId,
    pub to: ActorId,
}

/// What has to happen along with the change of the records.
#[derive(Clone, Debug, PartialEq, Eq)]
pub struct Settlement {
    /// The payments, in the order in which they are to be made.
    pub payments: Vec<Payment>,
    /// The hand-over of the property's token, where ownership changes.
    pub asset: Option<AssetTransfer>,
}

/// A settlement as a value of specifications.
pub struct SettlementView {
    pub payments: Seq<Payment>,
    pub asset: Option<AssetTransfer>,
}

impl View for Settlement {
    type V = SettlementView;

    open spec fn view(&self) -> SettlementView {
        SettlementView { payments: self.payments@, asset: self.asset }
    }
}

/// The sum of the payments that `party` makes.
pub open spec fn paid_by(payments: Seq<Payment>, party: Party) -> nat
    decreases payments.len(),
{
    if payments.len() == 0 {
        0
    } else {
        let rest = paid_by(payments.drop_last(), party);
        if payments.last().from == party {
            rest + payments.last().amount as nat
        } else {
            rest
        }
    }
}

/// The sum of the payments that `party` receives.
pub open spec fn paid_to(payments: Seq<Payment>, party: Party) -> nat
    decreases payments.len(),
{
    if payments.len() == 0 {
        0
    } else {
        let rest = paid_to(payments.drop_last(), party);
        if payments.last().to == party {
            rest + payments.last().amount as nat
        } else {
            rest
        }
    }
}

/// The settlement that moves nothing.
pub open spec fn nothing_moves() -> SettlementView {
    SettlementView { payments: Seq::empty(), asset: None }
}

/// The settlement of one payment and no hand-over.
pub open spec fn one_payment(from: Party, to: Party, amount: u64) -> SettlementView {
    SettlementView { payments: seq![Payment { from, to, amount }], asset: None }
}

/// The settlement of a sale at `amount`: `payer` pays the seller what is
/// left after the fee, then the treasury the fee at `fee_bps` basis points,
/// and the seller hands the token of `mint` to the buyer.
pub open spec fn sale_of(
    payer: Party,
    seller: ActorId,
    treasury: ActorId,
    buyer: ActorId,
    mint: ActorId,
    amount: u64,
    fee_bps: u64,
) -> SettlementView {
    SettlementView {
        payments: seq![
            Payment {
                from: payer,
                to: Party::Actor(seller),
                amount: net_of(amount as nat, fee_bps as nat) as u64,
            },
            Payment {
                from: payer,
                to: Party::Actor(treasury),
                amount: fee_of(amount as nat, fee_bps as nat) as u64,
            },
        ],
        asset: Some(AssetTransfer { mint, from: seller, to: buyer }),
    }
}

impl Settlement {
    /// The settlement that moves nothing.
    pub fn none() -> (s: Settlement)
        ensures
            s@ == nothing_moves(),
    {
        Settlement { payments: Vec::new(), asset: None }
    }

    /// The settlement of one payment of `amount` from `from` to `to`.
    pub fn payment(from: Party, to: Party, amount: u64) -> (s: Settlement)
        ensures
            s@ == one_payment(from, to, amount),
    {
        let mut payments: Vec<Payment> = Vec::new();
        payments.push(Payment { from, to, amount });
        assert(payments@ =~= seq![Payment { from, to, amount }]);
        Settlement { payments, asset: None }
    }

    /// The settlement of a sale at `amount`, paid by `payer`. It exists
    /// unless the fee exceeds the amount, which takes a rate above 100%.
    pub fn sale(
        payer: Party,
        seller: ActorId,
        treasury: ActorId,
        buyer: ActorId,
        mint: ActorId,
        amount: u64,
        fee_bps: u64,
    ) -> (r: Result<Settlement, ErrorCode>)
        ensures
            match r {
                Ok(s) => net_of(amount as nat, fee_bps as nat) >= 0 && s@ == sale_of(
                    payer,
                    seller,
                    treasury,
                    buyer,
                    mint,
                    amount,
                    fee_bps,
                ),
                Err(e) => e == ErrorCode::ArithmeticOverflow && net_of(
                    amount as nat,
                    fee_bps as nat,
                ) < 0,
            },
            fee_bps <= BASIS_POINTS ==> r is Ok,
    {
        let seller_amount: u64 = match net(amount, fee_bps) {
            Ok(n) => n,
            Err(e) => {
                return Err(e);
            },
        };
        let platform_fee: u64 = amount - seller_amount;
        let to_seller = Payment { from: payer, to: Party::Actor(seller), amount: seller_amount };
        let to_treasury = Payment {
            from: payer,
            to: Party::Actor(treasury),
            amount: platform_fee,
        };
        let mut payments: Vec<Payment> = Vec::new();
        payments.push(to_seller);
        payments.push(to_treasury);
        assert(payments@ =~= seq![to_seller, to_treasury]);
        Ok(Settlement { payments, asset: Some(AssetTransfer { mint, from: seller, to: buyer }) })
    }
}

} // verus!
