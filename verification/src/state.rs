//! Lifecycle states of markets and bets, and the byte each is stored as.

use vstd::prelude::*;

verus! {

/// Where a market stands in its lifecycle. Only `Open` and `Resolved` are
/// reached by the instructions; `Closed` and `Canceled` are reserved.
#[derive(Clone, Copy, Debug, PartialEq, Eq, Structural)]
pub enum MarketState {
    Open,
    Closed,
    Resolved,
    Canceled,
}

/// How far a bet has come. A bet is `Placed` until its one claim settles it
/// as won or lost; `Canceled` and `Refunded` are reserved.
#[derive(Clone, Copy, Debug, PartialEq, Eq, Structural)]
pub enum BetStatus {
    Placed,
    SettledWin,
    SettledLose,
    Canceled,
    Refunded,
}

impl MarketState {
    /// The byte a record stores for this state.
    pub open spec fn code_of(self) -> u8 {
        match self {
            MarketState::Open => 1,
            MarketState::Closed => 2,
            MarketState::Resolved => 3,
            MarketState::Canceled => 4,
        }
    }

    /// The byte a record stores for this state.
    pub fn code(&self) -> (c: u8)
        ensures
            c == self.code_of(),
    {
        match self {
            MarketState::Open => 1,
            MarketState::Closed => 2,
            MarketState::Resolved => 3,
            MarketState::Canceled => 4,
        }
    }

    /// The state stored as `code`, if there is one.
    pub fn from_code(code: u8) -> (s: Option<MarketState>)
        ensures
            1 <= code <= 4 ==> s is Some && s->0.code_of() == code,
            !(1 <= code <= 4) ==> s is None,
    {
        match code {
            1 => Some(MarketState::Open),
            2 => Some(MarketState::Closed),
            3 => Some(MarketState::Resolved),
            4 => Some(MarketState::Canceled),
            _ => None,
        }
    }
}

impl BetStatus {
    /// The byte a record stores for this status.
    pub open spec fn code_of(self) -> u8 {
        match self {
            BetStatus::Placed => 1,
            BetStatus::SettledWin => 2,
            BetStatus::SettledLose => 3,
            BetStatus::Canceled => 4,
            BetStatus::Refunded => 5,
        }
    }

    /// The byte a record stores for this status.
    pub fn code(&self) -> (c: u8)
        ensures
            c == self.code_of(),
    {
        match self {
            BetStatus::Placed => 1,
            BetStatus::SettledWin => 2,
            BetStatus::SettledLose => 3,
            BetStatus::Canceled => 4,
            BetStatus::Refunded => 5,
        }
    }

    /// The status stored as `code`, if there is one.
    pub fn from_code(code: u8) -> (s: Option<BetStatus>)
        ensures
            1 <= code <= 5 ==> s is Some && s->0.code_of() == code,
            !(1 <= code <= 5) ==> s is None,
    {
        match code {
            1 => Some(BetStatus::Placed),
            2 => Some(BetStatus::SettledWin),
            3 => Some(BetStatus::SettledLose),
            4 => Some(BetStatus::Canceled),
            5 => Some(BetStatus::Refunded),
            _ => None,
        }
    }
}

} // verus!
