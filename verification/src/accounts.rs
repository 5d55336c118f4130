//! The three kinds of record the ledger keeps.

use vstd::prelude::*;
use crate::fixed_point::payout_of;
use crate::identity::Identity;
use crate::state::{BetStatus, MarketState};

verus! {

/// The deployment's risk and fee parameters. One exists per deployment; it
/// is written once and never changed.
#[derive(Clone, Copy, Debug, PartialEq, Eq)]
pub struct ConfigAccount {
    /// Who may open and resolve markets.
    pub authority: Identity,
    /// The accepted currency; `None` is the native currency.
    pub base_mint: Option<Identity>,
    /// The platform's cut of a winning payout, in basis points.
    pub fee_bps: u16,
    /// Reserved; no instruction reads it.
    pub house_cut_bps: u16,
    /// The smallest stake accepted.
    pub min_bet: u64,
    /// The largest stake accepted.
    pub max_bet: u64,
    /// The highest decimal odds a bet may lock in, in basis points.
    pub max_odds_bps: u32,
    /// The highest multiplier a bet may choose, in basis points.
    pub max_multiplier_bps: u32,
    /// Where fees go; with `None` fees stay in escrow.
    pub treasury_sol: Option<Identity>,
    pub bump: u8,
}

/// One event that can be bet on.
#[derive(Clone, Copy, Debug, PartialEq, Eq)]
pub struct MarketAccount {
    pub market_id_seed: [u8; 32],
    pub home_code: u64,
    pub away_code: u64,
    pub start_time: i64,
    /// Advisory; no instruction enforces it.
    pub close_time: i64,
    pub state: MarketState,
    /// 0 while undeclared, then 1 (home) or 2 (away).
    pub result: u8,
    pub odds_home_bps: u32,
    pub odds_away_bps: u32,
    /// The cap on `exposure`.
    pub max_exposure: u64,
    /// The stakes placed on this market and not yet settled.
    pub exposure: u64,
    pub bump: u8,
    pub escrow_bump: u8,
}

/// One wager.
#[derive(Clone, Copy, Debug, PartialEq, Eq)]
pub struct BetAccount {
    pub user: Identity,
    pub market: Identity,
    pub nonce: u64,
    /// 1 (home) or 2 (away).
    pub selected_team: u8,
    /// The market's odds when the bet was placed.
    pub odds_home_bps: u32,
    pub odds_away_bps: u32,
    pub multiplier_bps: u32,
    /// The stake.
    pub amount: u64,
    /// The gross payout if the bet wins, fixed at placement.
    pub payout_expected: u64,
    pub timestamp: i64,
    pub status: BetStatus,
    pub claimed: bool,
    /// Net profit or loss, set by the claim.
    pub pnl: i64,
    pub bump: u8,
}

impl ConfigAccount {
    /// The bounds are in order and the fee is at most the whole payout.
    pub open spec fn well_formed(self) -> bool {
        &&& self.min_bet <= self.max_bet
        &&& self.fee_bps <= 10_000
    }
}

impl MarketAccount {
    /// The decimal odds of `team`: the home odds for team 1, the away odds
    /// for any other.
    pub open spec fn odds_for(self, team: u8) -> u32 {
        if team == 1 {
            self.odds_home_bps
        } else {
            self.odds_away_bps
        }
    }

    /// The exposure is within its cap, and a result is declared exactly on a
    /// resolved market.
    pub open spec fn well_formed(self) -> bool {
        &&& self.exposure <= self.max_exposure
        &&& self.state is Resolved ==> self.result == 1 || self.result == 2
        &&& !(self.state is Resolved) ==> self.result == 0
    }
}

impl BetAccount {
    /// The odds this bet locked in for the team it selected.
    pub open spec fn locked_odds(self) -> u32 {
        if self.selected_team == 1 {
            self.odds_home_bps
        } else {
            self.odds_away_bps
        }
    }

    /// What the bet nets its owner once settled: the gross payout less the
    /// stake if it won, the stake lost otherwise.
    pub open spec fn pnl_when(self, won: bool) -> int {
        if won {
            self.payout_expected - self.amount
        } else {
            -self.amount
        }
    }

    /// The bet is on team 1 or 2, its expected payout is the one its stake,
    /// locked odds and multiplier give, and its settlement fields agree:
    /// unclaimed means placed with no profit or loss yet, claimed means
    /// settled as won or lost with the matching profit or loss.
    pub open spec fn well_formed(self) -> bool {
        &&& self.selected_team == 1 || self.selected_team == 2
        &&& self.payout_expected == payout_of(
            self.amount as int,
            self.locked_odds() as int,
            self.multiplier_bps as int,
        )
        &&& !self.claimed ==> self.status is Placed && self.pnl == 0
        &&& self.claimed ==> (self.status is SettledWin || self.status is SettledLose)
            && self.pnl == self.pnl_when(self.status is SettledWin)
    }
}

} // verus!
