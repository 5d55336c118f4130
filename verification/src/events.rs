//! Notifications for observers. An instruction that succeeds hands one back;
//! sending it on is the caller's part.

use vstd::prelude::*;
use crate::identity::Identity;

verus! {

#[derive(Clone, Copy, Debug, PartialEq, Eq)]
pub struct EventBetPlaced {
    pub user: Identity,
    pub market: Identity,
    pub team: u8,
    pub amount: u64,
    pub odds_bps: u64,
    pub multiplier_bps: u64,
}

#[derive(Clone, Copy, Debug, PartialEq, Eq)]
pub struct EventMarketResolved {
    pub market: Identity,
    pub result: u8,
}

#[derive(Clone, Copy, Debug, PartialEq, Eq)]
pub struct EventBetClaimed {
    pub user: Identity,
    pub market: Identity,
    pub payout: u64,
    pub pnl: i64,
}

} // verus!
