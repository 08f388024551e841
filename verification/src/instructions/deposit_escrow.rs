//! Paying into an escrow.

use vstd::prelude::*;

use crate::errors::ErrorCode;
use crate::states::actor::ActorId;
use crate::states::escrow::Escrow;
use crate::transfers::{one_payment, Party, Settlement, SettlementView};

verus! {

/// What a deposit works on.
#[derive(Clone, Debug, PartialEq, Eq)]
pub struct DepositEscrowCtx {
    pub escrow: Escrow,
    /// The caller, who pays.
    pub depositor: ActorId,
}

/// The first reason, if any, for which the deposit is rejected: the record
/// is another escrow; the escrow is completed; the amount is zero; the
/// depositor is neither buyer nor seller; the held amount would leave 64 bits.
pub open spec fn deposit_escrow_error(
    ctx: DepositEscrowCtx,
    escrow_id: u64,
    amount: u64,
) -> Option<ErrorCode> {
    if ctx.escrow.escrow_id != escrow_id {
        Some(ErrorCode::NotFound)
    } else if ctx.escrow.is_completed {
        Some(ErrorCode::AlreadyCompleted)
    } else if amount == 0 {
        Some(ErrorCode::InvalidAmount)
    } else if ctx.depositor != ctx.escrow.buyer && ctx.depositor != ctx.escrow.seller {
        Some(ErrorCode::Unauthorized)
    } else if ctx.escrow.deposited_amount + amount > u64::MAX {
        Some(ErrorCode::ArithmeticOverflow)
    } else {
        None
    }
}

/// The context after the deposit: the escrow holds `amount` more. Nothing
/// caps what it holds at the agreed amount.
pub open spec fn deposit_escrow_effect(ctx: DepositEscrowCtx, amount: u64) -> DepositEscrowCtx {
    DepositEscrowCtx {
        escrow: Escrow {
            deposited_amount: (ctx.escrow.deposited_amount + amount) as u64,
            ..ctx.escrow
        },
        ..ctx
    }
}

/// What the deposit moves: the depositor pays `amount` into the escrow's
/// held balance.
pub open spec fn deposit_escrow_settlement(ctx: DepositEscrowCtx, amount: u64) -> SettlementView {
    one_payment(Party::Actor(ctx.depositor), Party::EscrowVault(ctx.escrow.escrow_id), amount)
}

/// Pays `amount` of the caller's into the escrow.
pub fn deposit_escrow(
    ctx: &mut DepositEscrowCtx,
    escrow_id: u64,
    amount: u64,
) -> (r: Result<Settlement, ErrorCode>)
    ensures
        match r {
            Ok(settlement) => {
                &&& deposit_escrow_error(*old(ctx), escrow_id, amount) is None
                &&& *final(ctx) == deposit_escrow_effect(*old(ctx), amount)
                &&& settlement@ == deposit_escrow_settlement(*old(ctx), amount)
                &&& final(ctx).escrow.deposited_amount == old(ctx).escrow.deposited_amount
                    + amount
                &&& {
                    ||| old(ctx).depositor == old(ctx).escrow.buyer
                    ||| old(ctx).depositor == old(ctx).escrow.seller
                }
            },
            Err(e) => {
                &&& deposit_escrow_error(*old(ctx), escrow_id, amount) == Some(e)
                &&& *final(ctx) == *old(ctx)
            },
        },
        old(ctx).escrow.wf() ==> final(ctx).escrow.wf(),
{
    if ctx.escrow.escrow_id != escrow_id {
        return Err(ErrorCode::NotFound);
    }
    if ctx.escrow.is_completed {
        return Err(ErrorCode::AlreadyCompleted);
    }
    if amount == 0 {
        return Err(ErrorCode::InvalidAmount);
    }
    if ctx.depositor != ctx.escrow.buyer && ctx.depositor != ctx.escrow.seller {
        return Err(ErrorCode::Unauthorized);
    }
    let held: u64 = match ctx.escrow.deposited_amount.checked_add(amount) {
        Some(sum) => sum,
        None => {
            return Err(ErrorCode::ArithmeticOverflow);
        },
    };
    ctx.escrow.deposited_amount = held;
    Ok(
        Settlement::payment(
            Party::Actor(ctx.depositor),
            Party::EscrowVault(ctx.escrow.escrow_id),
            amount,
        ),
    )
}

} // verus!
