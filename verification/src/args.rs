//! What a caller hands to an instruction.

use vstd::prelude::*;
use crate::identity::Identity;

verus! {

/// The parameters the configuration is created with.
#[derive(Clone, Copy, Debug, PartialEq, Eq)]
pub struct InitializeConfigParams {
    pub base_mint: Option<Identity>,
    pub fee_bps: u16,
    pub house_cut_bps: u16,
    pub min_bet: u64,
    pub max_bet: u64,
    pub max_odds_bps: u32,
    pub max_multiplier_bps: u32,
    pub treasury_sol: Option<Identity>,
}

/// The description of a market to open.
#[derive(Clone, Copy, Debug, PartialEq, Eq)]
pub struct OpenMarketArgs {
    pub market_id_seed: [u8; 32],
    pub home_code: u64,
    pub away_code: u64,
    pub start_time: i64,
    pub close_time: i64,
    pub odds_home_bps: u32,
    pub odds_away_bps: u32,
    pub max_exposure: u64,
}

/// A bettor's order.
#[derive(Clone, Copy, Debug, PartialEq, Eq)]
pub struct PlaceBetArgs {
    pub selected_team: u8,
    pub amount: u64,
    pub multiplier_bps: u32,
    pub nonce: u64,
}

} // verus!
