//! The records and identities each instruction works on. The caller loads
//! them, runs the instruction, and stores back what it changed.

use vstd::prelude::*;
use crate::accounts::{BetAccount, ConfigAccount, MarketAccount};
use crate::identity::Identity;

verus! {

/// For `initialize_config`.
#[derive(Clone, Copy, Debug, PartialEq, Eq)]
pub struct InitializeConfig {
    /// The caller, who becomes the authority.
    pub authority: Identity,
    /// The bump of the configuration's address.
    pub bump: u8,
}

/// For `open_market`.
#[derive(Clone, Copy, Debug, PartialEq, Eq)]
pub struct OpenMarket {
    /// The caller.
    pub authority: Identity,
    pub config: ConfigAccount,
    /// The bump of the market's address.
    pub bump: u8,
    /// The bump of the address of the market's escrow.
    pub escrow_bump: u8,
}

/// For `place_bet`.
#[derive(Clone, Copy, Debug, PartialEq, Eq)]
pub struct PlaceBet {
    /// The caller, who stakes and owns the bet.
    pub user: Identity,
    pub config: ConfigAccount,
    pub market: MarketAccount,
    /// The identity of `market`.
    pub market_key: Identity,
    /// The time of the call.
    pub now: i64,
    /// The bump of the bet's address.
    pub bet_bump: u8,
}

/// For `resolve_market`.
#[derive(Clone, Copy, Debug, PartialEq, Eq)]
pub struct ResolveMarket {
    /// The caller.
    pub authority: Identity,
    pub config: ConfigAccount,
    pub market: MarketAccount,
    /// The identity of `market`.
    pub market_key: Identity,
}

/// For `claim_payout`.
#[derive(Clone, Copy, Debug, PartialEq, Eq)]
pub struct ClaimPayout {
    /// The caller.
    pub user: Identity,
    pub config: ConfigAccount,
    pub market: MarketAccount,
    /// The identity of `market`.
    pub market_key: Identity,
    pub bet: BetAccount,
    /// The balance the caller names as fee destination.
    pub treasury: Identity,
}

} // verus!
