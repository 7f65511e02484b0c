//! The fee rule: a proportional fee in basis points, rounded down, with a
//! minimum for payouts in the native currency.

use vstd::prelude::*;
use crate::types::{EscrowError, MIN_NATIVE_FEE};

verus! {

/// The proportional fee on `gross` at `bps` basis points, rounded down.
pub open spec fn proportional_fee(gross: int, bps: int) -> int {
    (gross * bps) / 10_000
}

/// The fee owed on a payout of `gross`.
///
/// It is the proportional fee, except that a native-currency payout whose
/// proportional fee rounds down to nothing is charged the minimum fee, or the
/// whole payout where the payout is smaller than the minimum fee.
pub open spec fn fee_of(gross: int, bps: int, is_native: bool) -> int {
    let raw = proportional_fee(gross, bps);
    if is_native && raw == 0 {
        if gross < MIN_NATIVE_FEE as int {
            gross
        } else {
            MIN_NATIVE_FEE as int
        }
    } else {
        raw
    }
}

/// What is left of a payout of `gross` once the fee is taken.
pub open spec fn net_of(gross: int, bps: int, is_native: bool) -> int {
    gross - fee_of(gross, bps, is_native)
}

/// At a rate of at most 100% the fee never exceeds the payout and is never
/// negative.
pub proof fn lemma_fee_within_gross(gross: int, bps: int, is_native: bool)
    requires
        0 <= gross,
        0 <= bps <= 10_000,
    ensures
        0 <= fee_of(gross, bps, is_native) <= gross,
        0 <= net_of(gross, bps, is_native) <= gross,
        fee_of(gross, bps, is_native) + net_of(gross, bps, is_native) == gross,
{
    assert(0 <= gross * bps <= gross * 10_000) by (nonlinear_arith)
        requires
            0 <= gross,
            0 <= bps <= 10_000,
    ;
    assert(0 <= (gross * bps) / 10_000 <= gross) by (nonlinear_arith)
        requires
            0 <= gross * bps <= gross * 10_000,
    ;
}

/// What `compute_fee` answers: fee and net, or `ArithmeticOverflow` where
/// the fee would exceed the payout.
pub open spec fn fee_split(gross: u64, bps: u16, is_native: bool) -> Result<
    (u64, u64),
    EscrowError,
> {
    let fee = fee_of(gross as int, bps as int, is_native);
    if fee > gross {
        Err(EscrowError::ArithmeticOverflow)
    } else {
        Ok((fee as u64, (gross - fee) as u64))
    }
}

/// The fee rule is a function of its three inputs: whenever it succeeds,
/// its parts are the fee and the net amount that the rule defines, and they
/// add up to the payout. It succeeds at every rate of at most 100%.
pub proof fn law_fee_determinism(gross: u64, bps: u16, is_native: bool)
    ensures
        fee_split(gross, bps, is_native) matches Ok((fee, net)) ==> {
            &&& fee == fee_of(gross as int, bps as int, is_native)
            &&& net == net_of(gross as int, bps as int, is_native)
            &&& fee + net == gross
        },
        bps <= 10_000 ==> fee_split(gross, bps, is_native) is Ok,
{
    assert(0 <= (gross as int) * (bps as int)) by (nonlinear_arith)
        requires
            0 <= gross as int,
            0 <= bps as int,
    ;
    if bps <= 10_000 {
        lemma_fee_within_gross(gross as int, bps as int, is_native);
    }
}

/// Splits a payout of `gross` into the fee and the net amount.
///
/// The fee is the proportional fee at `bps` basis points, rounded down; a
/// native-currency payout whose proportional fee is zero is charged
/// `MIN_NATIVE_FEE`, or all of the payout if that is less. Fails with
/// `ArithmeticOverflow` exactly when the fee would exceed the payout, which
/// can only happen at a rate above 100%.
pub fn compute_fee(gross: u64, bps: u16, is_native: bool) -> (res: Result<(u64, u64), EscrowError>)
    ensures
        res == fee_split(gross, bps, is_native),
        res matches Ok((fee, net)) ==> fee + net == gross,
        bps <= 10_000 ==> res is Ok,
{
    proof {
        assert(0 <= (gross as int) * (bps as int) <= 0xffff_ffff_ffff_ffff * 0xffff) by (nonlinear_arith)
            requires
                0 <= gross as int <= 0xffff_ffff_ffff_ffff,
                0 <= bps as int <= 0xffff,
        ;
        law_fee_determinism(gross, bps, is_native);
    }
    let product: u128 = (gross as u128) * (bps as u128);
    let raw: u128 = product / 10_000;
    let fee: u128 = if is_native && raw == 0 {
        if gross < MIN_NATIVE_FEE {
            gross as u128
        } else {
            MIN_NATIVE_FEE as u128
        }
    } else {
        raw
    };
    if fee > gross as u128 {
        Err(EscrowError::ArithmeticOverflow)
    } else {
        let fee64: u64 = fee as u64;
        Ok((fee64, gross - fee64))
    }
}

} // verus!
