//! Scaled-integer arithmetic in basis points, checked at every step.

use vstd::prelude::*;
use crate::error::LevrBetError;

verus! {

/// One whole in basis points: 10000 bps is 1.00.
pub const SCALE_BPS: u64 = 10_000;

/// The gross payout of a winning stake: stake times decimal odds times
/// multiplier, both in basis points, rounded down.
pub open spec fn payout_of(amount: int, odds_bps: int, multiplier_bps: int) -> int {
    (amount * odds_bps * multiplier_bps) / 100_000_000
}

/// The share of `payout` that a rate of `fee_bps` basis points takes,
/// rounded down.
pub open spec fn fee_of(payout: int, fee_bps: int) -> int {
    (payout * fee_bps) / 10_000
}

/// Rounding down never lets the fee exceed the payout while the rate is at
/// most one whole.
pub proof fn lemma_fee_at_most_payout(payout: int, fee_bps: int)
    requires
        0 <= payout,
        0 <= fee_bps <= 10_000,
    ensures
        0 <= fee_of(payout, fee_bps) <= payout,
{
    assert(0 <= payout * fee_bps <= payout * 10_000) by (nonlinear_arith)
        requires
            0 <= payout,
            0 <= fee_bps <= 10_000,
    ;
}

/// At odds and multiplier of at least 1.00 each, the gross payout is never
/// less than the stake.
pub proof fn lemma_payout_at_least_stake(amount: int, odds_bps: int, multiplier_bps: int)
    requires
        0 <= amount,
        10_000 <= odds_bps,
        10_000 <= multiplier_bps,
    ensures
        amount <= payout_of(amount, odds_bps, multiplier_bps),
{
    assert(amount * 100_000_000 <= amount * odds_bps * multiplier_bps) by (nonlinear_arith)
        requires
            0 <= amount,
            10_000 <= odds_bps,
            10_000 <= multiplier_bps,
    ;
}

/// Computes `payout_of` in 128 bits. Fails with `Overflow` exactly when the
/// payout does not fit in 64 bits; an intermediate product that leaves 128
/// bits is such a case.
pub fn expected_payout(amount: u64, odds_bps: u64, multiplier_bps: u64) -> (r: Result<
    u64,
    LevrBetError,
>)
    ensures
        payout_of(amount as int, odds_bps as int, multiplier_bps as int) <= u64::MAX ==> r == Ok::<
            u64,
            LevrBetError,
        >(payout_of(amount as int, odds_bps as int, multiplier_bps as int) as u64),
        payout_of(amount as int, odds_bps as int, multiplier_bps as int) > u64::MAX ==> r == Err::<
            u64,
            LevrBetError,
        >(LevrBetError::Overflow),
{
    let staked: u128 = match (amount as u128).checked_mul(odds_bps as u128) {
        Some(v) => v,
        None => {
            proof {
                assert(amount * odds_bps <= u64::MAX * u64::MAX) by (nonlinear_arith)
                    requires
                        0 <= amount <= u64::MAX,
                        0 <= odds_bps <= u64::MAX,
                ;
            }
            return Err(LevrBetError::Overflow);
        },
    };
    let levered: u128 = match staked.checked_mul(multiplier_bps as u128) {
        Some(v) => v,
        None => { return Err(LevrBetError::Overflow); },
    };
    let unit: u128 = (SCALE_BPS as u128) * (SCALE_BPS as u128);
    let payout: u128 = levered / unit;
    if payout > u64::MAX as u128 {
        return Err(LevrBetError::Overflow);
    }
    Ok(payout as u64)
}

/// Computes `fee_of` in 128 bits. Fails with `Overflow` exactly when the fee
/// does not fit in 64 bits, which takes a rate above one whole.
pub fn platform_fee(payout: u64, fee_bps: u16) -> (r: Result<u64, LevrBetError>)
    ensures
        fee_of(payout as int, fee_bps as int) <= u64::MAX ==> r == Ok::<u64, LevrBetError>(
            fee_of(payout as int, fee_bps as int) as u64,
        ),
        fee_of(payout as int, fee_bps as int) > u64::MAX ==> r == Err::<u64, LevrBetError>(
            LevrBetError::Overflow,
        ),
{
    let scaled: u128 = match (payout as u128).checked_mul(fee_bps as u128) {
        Some(v) => v,
        None => {
            proof {
                assert(payout * fee_bps <= u64::MAX * u16::MAX) by (nonlinear_arith)
                    requires
                        0 <= payout <= u64::MAX,
                        0 <= fee_bps <= u16::MAX,
                ;
            }
            return Err(LevrBetError::Overflow);
        },
    };
    let fee: u128 = scaled / (SCALE_BPS as u128);
    if fee > u64::MAX as u128 {
        return Err(LevrBetError::Overflow);
    }
    Ok(fee as u64)
}

} // verus!
