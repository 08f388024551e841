//! The platform fee and what is left of an amount once it is taken.

use vstd::prelude::*;

use crate::constants::BASIS_POINTS;
use crate::errors::ErrorCode;

verus! {

/// The platform's share of `amount` at a rate of `fee_bps` basis points,
/// rounded down.
pub open spec fn fee_of(amount: nat, fee_bps: nat) -> nat {
    (amount * fee_bps) / (BASIS_POINTS as nat)
}

/// What is left of `amount` once the platform's share is taken. Negative
/// where the rate is so far above 100% that the share exceeds the amount.
pub open spec fn net_of(amount: nat, fee_bps: nat) -> int {
    amount - fee_of(amount, fee_bps)
}

/// At a rate of at most 100% the fee never exceeds the amount, so fee and
/// net amount are both within it and add up to it.
pub proof fn lemma_fee_within_amount(amount: nat, fee_bps: nat)
    requires
        fee_bps <= BASIS_POINTS,
    ensures
        fee_of(amount, fee_bps) <= amount,
        0 <= net_of(amount, fee_bps) <= amount,
        fee_of(amount, fee_bps) + net_of(amount, fee_bps) == amount,
{
    assert(amount * fee_bps <= amount * 10_000) by (nonlinear_arith)
        requires
            fee_bps <= BASIS_POINTS,
    ;
    assert((amount * 10_000) / 10_000 == amount);
}

/// The product of two 64-bit values, computed in 128 bits, where it always fits.
fn wide_product(a: u64, b: u64) -> (p: u128)
    ensures
        p == a * b,
{
    assert(a * b <= 0xffff_ffff_ffff_ffff * 0xffff_ffff_ffff_ffff) by (nonlinear_arith)
        requires
            a <= 0xffff_ffff_ffff_ffff,
            b <= 0xffff_ffff_ffff_ffff,
    ;
    (a as u128) * (b as u128)
}

/// The platform fee on `amount` at `fee_bps` basis points, rounded down.
///
/// The product is formed in 128 bits, so the only failure left is a fee that
/// itself does not fit in 64 bits, which takes a rate above 100%.
pub fn fee(amount: u64, fee_bps: u64) -> (r: Result<u64, ErrorCode>)
    ensures
        match r {
            Ok(f) => f == fee_of(amount as nat, fee_bps as nat),
            Err(e) => e == ErrorCode::ArithmeticOverflow && fee_of(amount as nat, fee_bps as nat)
                > u64::MAX,
        },
        fee_bps <= BASIS_POINTS ==> r is Ok,
{
    proof {
        if fee_bps <= BASIS_POINTS {
            lemma_fee_within_amount(amount as nat, fee_bps as nat);
        }
    }
    let share: u128 = wide_product(amount, fee_bps) / (BASIS_POINTS as u128);
    if share > u64::MAX as u128 {
        Err(ErrorCode::ArithmeticOverflow)
    } else {
        Ok(share as u64)
    }
}

/// What is left of `amount` once the platform fee at `fee_bps` basis points
/// is taken. Fails where the fee exceeds the amount.
pub fn net(amount: u64, fee_bps: u64) -> (r: Result<u64, ErrorCode>)
    ensures
        match r {
            Ok(n) => n == net_of(amount as nat, fee_bps as nat),
            Err(e) => e == ErrorCode::ArithmeticOverflow && net_of(amount as nat, fee_bps as nat)
                < 0,
        },
        fee_bps <= BASIS_POINTS ==> r is Ok,
{
    proof {
        if fee_bps <= BASIS_POINTS {
            lemma_fee_within_amount(amount as nat, fee_bps as nat);
        }
    }
    let share: u128 = wide_product(amount, fee_bps) / (BASIS_POINTS as u128);
    if share > amount as u128 {
        Err(ErrorCode::ArithmeticOverflow)
    } else {
        Ok(amount - (share as u64))
    }
}

} // verus!
