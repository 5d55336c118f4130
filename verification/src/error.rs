//! The failures an instruction can end in.

use vstd::prelude::*;

verus! {

/// Why an instruction was refused. Every failure is final for that call and
/// leaves every record as it was.
#[derive(Clone, Copy, Debug, PartialEq, Eq, Structural)]
pub enum LevrBetError {
    /// The caller is not the required authority, owner or fee destination.
    Unauthorized,
    /// A bet was placed on a market that is not open.
    MarketClosed,
    /// A claim was made before the market was resolved.
    MarketNotResolved,
    /// The chosen team's odds are below 1.00 or above the configured limit.
    InvalidOdds,
    /// The multiplier is below 1.00 or above the configured limit.
    InvalidMultiplier,
    /// The selected team is neither 1 nor 2.
    InvalidTeam,
    /// The declared result is neither 1 nor 2.
    InvalidResult,
    /// The stake lies outside the configured bounds.
    AmountOutOfRange,
    /// A balance is too small for a transfer out of it.
    InsufficientFunds,
    /// The stake would push the market's exposure above its cap.
    MaxExposureExceeded,
    /// The bet was settled before.
    AlreadyClaimed,
    /// The bet does not belong to the given market.
    BetNotFound,
    /// A checked operation left the range of its integer type.
    Overflow,
}

} // verus!
