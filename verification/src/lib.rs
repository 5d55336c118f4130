//! A wager-settlement ledger: markets, staked bets, and their settlement
//! against a per-market escrow, as a verified state machine on plain values.
//!
//! The instructions take the records they work on, check their
//! preconditions, change the records, and hand back which funds are to move
//! and which notification is to be sent. Loading and storing records, moving
//! funds and reading the clock are the caller's part.

pub mod accounts;
pub mod args;
pub mod context;
pub mod error;
pub mod escrow;
pub mod events;
pub mod fixed_point;
pub mod identity;
pub mod instructions;
pub mod ledger;
pub mod state;

pub use accounts::{BetAccount, ConfigAccount, MarketAccount};
pub use args::{InitializeConfigParams, OpenMarketArgs, PlaceBetArgs};
pub use context::{ClaimPayout, InitializeConfig, OpenMarket, PlaceBet, ResolveMarket};
pub use error::LevrBetError;
pub use escrow::{escrow_seeds, identity_bytes};
pub use events::{EventBetClaimed, EventBetPlaced, EventMarketResolved};
pub use fixed_point::{expected_payout, platform_fee, SCALE_BPS};
pub use identity::Identity;
pub use instructions::{
    claim_payout, initialize_config, open_market, place_bet, resolve_market, BetPlacement,
    Settlement,
};
pub use state::{BetStatus, MarketState};
