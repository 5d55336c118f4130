//! The five instructions. Each checks its preconditions in a fixed order,
//! fails on the first that is violated without changing anything, and
//! otherwise changes the records and says which funds are to move.

use vstd::prelude::*;
use crate::accounts::{BetAccount, ConfigAccount, MarketAccount};
use crate::args::{InitializeConfigParams, OpenMarketArgs, PlaceBetArgs};
use crate::context::{ClaimPayout, InitializeConfig, OpenMarket, PlaceBet, ResolveMarket};
use crate::error::LevrBetError;
use crate::events::{EventBetClaimed, EventBetPlaced, EventMarketResolved};
use crate::fixed_point::{expected_payout, fee_of, payout_of, platform_fee, SCALE_BPS};
use crate::state::{BetStatus, MarketState};

verus! {

/// What placing a bet asks of the caller: store `bet`, move `stake` from the
/// bettor into the market's escrow, and send `event`.
#[derive(Clone, Copy, Debug, PartialEq, Eq)]
pub struct BetPlacement {
    pub bet: BetAccount,
    pub stake: u64,
    pub event: EventBetPlaced,
}

/// What a claim asks of the caller: move `to_treasury` and then `to_bettor`
/// out of the market's escrow, each where it is `Some`, and send `event`.
#[derive(Clone, Copy, Debug, PartialEq, Eq)]
pub struct Settlement {
    /// The gross payout: the bet's expected payout if it won, else 0.
    pub payout: u64,
    /// The platform's cut of `payout`.
    pub fee: u64,
    /// The fee to pay out; `None` where no fee destination is configured or
    /// nothing is due.
    pub to_treasury: Option<u64>,
    /// `payout` less `fee`; `None` where the payout is 0.
    pub to_bettor: Option<u64>,
    pub event: EventBetClaimed,
}

/// Creates the configuration from `params`, with the caller as authority.
/// Nothing is checked: whether the result is well formed is up to `params`.
pub fn initialize_config(ctx: &InitializeConfig, params: &InitializeConfigParams) -> (cfg:
    ConfigAccount)
    ensures
        cfg.authority == ctx.authority,
        cfg.base_mint == params.base_mint,
        cfg.fee_bps == params.fee_bps,
        cfg.house_cut_bps == params.house_cut_bps,
        cfg.min_bet == params.min_bet,
        cfg.max_bet == params.max_bet,
        cfg.max_odds_bps == params.max_odds_bps,
        cfg.max_multiplier_bps == params.max_multiplier_bps,
        cfg.treasury_sol == params.treasury_sol,
        cfg.bump == ctx.bump,
        cfg.well_formed() <==> params.min_bet <= params.max_bet && params.fee_bps <= 10_000,
{
    ConfigAccount {
        authority: ctx.authority,
        base_mint: params.base_mint,
        fee_bps: params.fee_bps,
        house_cut_bps: params.house_cut_bps,
        min_bet: params.min_bet,
        max_bet: params.max_bet,
        max_odds_bps: params.max_odds_bps,
        max_multiplier_bps: params.max_multiplier_bps,
        treasury_sol: params.treasury_sol,
        bump: ctx.bump,
    }
}

/// The market that `open_market` creates: open, undeclared, with no
/// exposure, and everything else as `args` gives it.
pub open spec fn market_opened(ctx: OpenMarket, args: OpenMarketArgs) -> MarketAccount {
    MarketAccount {
        market_id_seed: args.market_id_seed,
        home_code: args.home_code,
        away_code: args.away_code,
        start_time: args.start_time,
        close_time: args.close_time,
        state: MarketState::Open,
        result: 0,
        odds_home_bps: args.odds_home_bps,
        odds_away_bps: args.odds_away_bps,
        max_exposure: args.max_exposure,
        exposure: 0,
        bump: ctx.bump,
        escrow_bump: ctx.escrow_bump,
    }
}

/// Opens a market. Only the authority may; odds and times are taken as
/// given.
pub fn open_market(ctx: &OpenMarket, args: &OpenMarketArgs) -> (r: Result<
    MarketAccount,
    LevrBetError,
>)
    ensures
        ctx.config.authority == ctx.authority ==> r == Ok::<MarketAccount, LevrBetError>(
            market_opened(*ctx, *args),
        ),
        ctx.config.authority != ctx.authority ==> r == Err::<MarketAccount, LevrBetError>(
            LevrBetError::Unauthorized,
        ),
        r is Ok ==> r->Ok_0.well_formed(),
{
    if !ctx.config.authority.same(&ctx.authority) {
        return Err(LevrBetError::Unauthorized);
    }
    Ok(
        MarketAccount {
            market_id_seed: args.market_id_seed,
            home_code: args.home_code,
            away_code: args.away_code,
            start_time: args.start_time,
            close_time: args.close_time,
            state: MarketState::Open,
            result: 0,
            odds_home_bps: args.odds_home_bps,
            odds_away_bps: args.odds_away_bps,
            max_exposure: args.max_exposure,
            exposure: 0,
            bump: ctx.bump,
            escrow_bump: ctx.escrow_bump,
        },
    )
}

/// Why `place_bet` refuses an order, if it does: the first of its
/// preconditions that fails, in the order they are checked. `Overflow`
/// stands for an exposure and for an expected payout that does not fit in 64
/// bits.
pub open spec fn bet_refusal(cfg: ConfigAccount, market: MarketAccount, args: PlaceBetArgs)
    -> Option<LevrBetError> {
    let odds = market.odds_for(args.selected_team);
    if !(market.state is Open) {
        Some(LevrBetError::MarketClosed)
    } else if !(cfg.min_bet <= args.amount <= cfg.max_bet) {
        Some(LevrBetError::AmountOutOfRange)
    } else if !(SCALE_BPS <= args.multiplier_bps <= cfg.max_multiplier_bps) {
        Some(LevrBetError::InvalidMultiplier)
    } else if !(args.selected_team == 1 || args.selected_team == 2) {
        Some(LevrBetError::InvalidTeam)
    } else if !(SCALE_BPS <= odds <= cfg.max_odds_bps) {
        Some(LevrBetError::InvalidOdds)
    } else if market.exposure + args.amount > u64::MAX {
        Some(LevrBetError::Overflow)
    } else if market.exposure + args.amount > market.max_exposure {
        Some(LevrBetError::MaxExposureExceeded)
    } else if payout_of(args.amount as int, odds as int, args.multiplier_bps as int) > u64::MAX {
        Some(LevrBetError::Overflow)
    } else {
        None
    }
}

/// The market once a stake of `amount` is added to its exposure.
pub open spec fn market_after_bet(market: MarketAccount, amount: u64) -> MarketAccount {
    MarketAccount { exposure: (market.exposure + amount) as u64, ..market }
}

/// The bet that an accepted order creates: unclaimed, with the market's odds
/// as they stand and the payout they promise.
pub open spec fn bet_placed(ctx: PlaceBet, args: PlaceBetArgs) -> BetAccount {
    BetAccount {
        user: ctx.user,
        market: ctx.market_key,
        nonce: args.nonce,
        selected_team: args.selected_team,
        odds_home_bps: ctx.market.odds_home_bps,
        odds_away_bps: ctx.market.odds_away_bps,
        multiplier_bps: args.multiplier_bps,
        amount: args.amount,
        payout_expected: payout_of(
            args.amount as int,
            ctx.market.odds_for(args.selected_team) as int,
            args.multiplier_bps as int,
        ) as u64,
        timestamp: ctx.now,
        status: BetStatus::Placed,
        claimed: false,
        pnl: 0,
        bump: ctx.bet_bump,
    }
}

/// What an accepted order hands back.
pub open spec fn placement_of(ctx: PlaceBet, args: PlaceBetArgs) -> BetPlacement {
    BetPlacement {
        bet: bet_placed(ctx, args),
        stake: args.amount,
        event: EventBetPlaced {
            user: ctx.user,
            market: ctx.market_key,
            team: args.selected_team,
            amount: args.amount,
            odds_bps: ctx.market.odds_for(args.selected_team) as u64,
            multiplier_bps: args.multiplier_bps as u64,
        },
    }
}

/// Places a bet on an open market. The order is refused exactly as
/// `bet_refusal` says, and then nothing changes. Otherwise the stake is
/// added to the market's exposure and the new bet comes back with the stake
/// to collect.
pub fn place_bet(ctx: &mut PlaceBet, args: &PlaceBetArgs) -> (r: Result<BetPlacement, LevrBetError>)
    ensures
        match r {
            Ok(placement) => {
                &&& bet_refusal(old(ctx).config, old(ctx).market, *args) is None
                &&& placement == placement_of(*old(ctx), *args)
                &&& *final(ctx) == (PlaceBet {
                    market: market_after_bet(old(ctx).market, args.amount),
                    ..*old(ctx)
                })
            },
            Err(e) => {
                &&& bet_refusal(old(ctx).config, old(ctx).market, *args) == Some(e)
                &&& *final(ctx) == *old(ctx)
            },
        },
        r is Ok && old(ctx).market.well_formed() ==> final(ctx).market.well_formed()
            && r->Ok_0.bet.well_formed(),
        old(ctx).market.exposure + args.amount > old(ctx).market.max_exposure ==> r is Err
            && final(ctx).market.exposure == old(ctx).market.exposure,
        final(ctx).market.exposure >= old(ctx).market.exposure,
{
    match ctx.market.state {
        MarketState::Open => {},
        _ => {
            return Err(LevrBetError::MarketClosed);
        },
    }
    if !(args.amount >= ctx.config.min_bet && args.amount <= ctx.config.max_bet) {
        return Err(LevrBetError::AmountOutOfRange);
    }
    if !(args.multiplier_bps as u64 >= SCALE_BPS && args.multiplier_bps
        <= ctx.config.max_multiplier_bps) {
        return Err(LevrBetError::InvalidMultiplier);
    }
    if !(args.selected_team == 1 || args.selected_team == 2) {
        return Err(LevrBetError::InvalidTeam);
    }
    let odds_bps: u64 = if args.selected_team == 1 {
        ctx.market.odds_home_bps as u64
    } else {
        ctx.market.odds_away_bps as u64
    };
    if !(odds_bps <= ctx.config.max_odds_bps as u64 && odds_bps >= SCALE_BPS) {
        return Err(LevrBetError::InvalidOdds);
    }
    let new_exposure: u64 = match ctx.market.exposure.checked_add(args.amount) {
        Some(v) => v,
        None => {
            return Err(LevrBetError::Overflow);
        },
    };
    if new_exposure > ctx.market.max_exposure {
        return Err(LevrBetError::MaxExposureExceeded);
    }
    let payout_expected: u64 = match expected_payout(
        args.amount,
        odds_bps,
        args.multiplier_bps as u64,
    ) {
        Ok(v) => v,
        Err(e) => {
            return Err(e);
        },
    };
    let bet = BetAccount {
        user: ctx.user,
        market: ctx.market_key,
        nonce: args.nonce,
        selected_team: args.selected_team,
        odds_home_bps: ctx.market.odds_home_bps,
        odds_away_bps: ctx.market.odds_away_bps,
        multiplier_bps: args.multiplier_bps,
        amount: args.amount,
        payout_expected,
        timestamp: ctx.now,
        status: BetStatus::Placed,
        claimed: false,
        pnl: 0,
        bump: ctx.bet_bump,
    };
    let event = EventBetPlaced {
        user: ctx.user,
        market: ctx.market_key,
        team: args.selected_team,
        amount: args.amount,
        odds_bps,
        multiplier_bps: args.multiplier_bps as u64,
    };
    ctx.market.exposure = new_exposure;
    Ok(BetPlacement { bet, stake: args.amount, event })
}

/// Why `resolve_market` refuses, if it does: the first of its preconditions
/// that fails, in the order they are checked.
pub open spec fn resolve_refusal(ctx: ResolveMarket, result: u8) -> Option<LevrBetError> {
    if ctx.config.authority != ctx.authority {
        Some(LevrBetError::Unauthorized)
    } else if !(result == 1 || result == 2) {
        Some(LevrBetError::InvalidResult)
    } else if !(ctx.market.state is Open) {
        Some(LevrBetError::MarketClosed)
    } else {
        None
    }
}

/// The market once `result` is declared.
pub open spec fn market_resolved(market: MarketAccount, result: u8) -> MarketAccount {
    MarketAccount { state: MarketState::Resolved, result, ..market }
}

/// Declares the result of an open market. Only the authority may, the result
/// is team 1 or 2, and a market that is not open (one resolved before, too)
/// is refused with `MarketClosed`: a declared result stands. On refusal
/// nothing changes.
pub fn resolve_market(ctx: &mut ResolveMarket, result: u8) -> (r: Result<
    EventMarketResolved,
    LevrBetError,
>)
    ensures
        match r {
            Ok(event) => {
                &&& resolve_refusal(*old(ctx), result) is None
                &&& event == (EventMarketResolved { market: old(ctx).market_key, result })
                &&& *final(ctx) == (ResolveMarket {
                    market: market_resolved(old(ctx).market, result),
                    ..*old(ctx)
                })
            },
            Err(e) => {
                &&& resolve_refusal(*old(ctx), result) == Some(e)
                &&& *final(ctx) == *old(ctx)
            },
        },
        r is Ok && old(ctx).market.well_formed() ==> final(ctx).market.well_formed(),
        old(ctx).config.authority != old(ctx).authority ==> r == Err::<
            EventMarketResolved,
            LevrBetError,
        >(LevrBetError::Unauthorized) && final(ctx).market == old(ctx).market,
{
    if !ctx.config.authority.same(&ctx.authority) {
        return Err(LevrBetError::Unauthorized);
    }
    if !(result == 1 || result == 2) {
        return Err(LevrBetError::InvalidResult);
    }
    match ctx.market.state {
        MarketState::Open => {},
        _ => {
            return Err(LevrBetError::MarketClosed);
        },
    }
    ctx.market.result = result;
    ctx.market.state = MarketState::Resolved;
    Ok(EventMarketResolved { market: ctx.market_key, result })
}

/// Whether `bet` picked the team that `market` declared.
pub open spec fn bet_won(market: MarketAccount, bet: BetAccount) -> bool {
    market.result == bet.selected_team
}

/// The gross payout of a claim: the expected payout of a bet that won, 0 of
/// one that lost.
pub open spec fn payout_due(ctx: ClaimPayout) -> u64 {
    if bet_won(ctx.market, ctx.bet) {
        ctx.bet.payout_expected
    } else {
        0
    }
}

/// The platform's cut of the gross payout.
pub open spec fn fee_due(ctx: ClaimPayout) -> int {
    if bet_won(ctx.market, ctx.bet) {
        fee_of(ctx.bet.payout_expected as int, ctx.config.fee_bps as int)
    } else {
        0
    }
}

/// Why `claim_payout` refuses, if it does: the first of its preconditions
/// that fails, in the order they are checked. `Overflow` stands for a fee
/// that does not fit in 64 bits, a profit or loss that does not fit in 64
/// signed bits, and a fee larger than the payout it is taken from.
/// `Unauthorized` stands for a caller who does not own the bet and, where
/// funds are due and a fee destination is configured, for a named
/// destination that is another.
pub open spec fn claim_refusal(ctx: ClaimPayout) -> Option<LevrBetError> {
    let won = bet_won(ctx.market, ctx.bet);
    let pnl = ctx.bet.pnl_when(won);
    if !(ctx.market.state is Resolved) {
        Some(LevrBetError::MarketNotResolved)
    } else if ctx.bet.claimed {
        Some(LevrBetError::AlreadyClaimed)
    } else if ctx.bet.user != ctx.user {
        Some(LevrBetError::Unauthorized)
    } else if ctx.bet.market != ctx.market_key {
        Some(LevrBetError::BetNotFound)
    } else if fee_due(ctx) > u64::MAX {
        Some(LevrBetError::Overflow)
    } else if !(i64::MIN <= pnl <= i64::MAX) {
        Some(LevrBetError::Overflow)
    } else if payout_due(ctx) > 0 && ctx.config.treasury_sol is Some
        && ctx.config.treasury_sol != Some(ctx.treasury) {
        Some(LevrBetError::Unauthorized)
    } else if payout_due(ctx) > 0 && fee_due(ctx) > payout_due(ctx) {
        Some(LevrBetError::Overflow)
    } else {
        None
    }
}

/// The bet once settled: won or lost, claimed, with its profit or loss.
pub open spec fn bet_settled(market: MarketAccount, bet: BetAccount) -> BetAccount {
    let won = bet_won(market, bet);
    BetAccount {
        status: if won {
            BetStatus::SettledWin
        } else {
            BetStatus::SettledLose
        },
        claimed: true,
        pnl: bet.pnl_when(won) as i64,
        ..bet
    }
}

/// The market once a stake of `amount` is released from its exposure. An
/// exposure smaller than the stake drops to 0.
pub open spec fn market_after_claim(market: MarketAccount, amount: u64) -> MarketAccount {
    MarketAccount {
        exposure: if market.exposure >= amount {
            (market.exposure - amount) as u64
        } else {
            0
        },
        ..market
    }
}

/// What an accepted claim hands back.
pub open spec fn settlement_of(ctx: ClaimPayout) -> Settlement {
    let payout = payout_due(ctx);
    let fee = fee_due(ctx) as u64;
    Settlement {
        payout,
        fee,
        to_treasury: if payout > 0 && ctx.config.treasury_sol is Some && fee > 0 {
            Some(fee)
        } else {
            None
        },
        to_bettor: if payout > 0 {
            Some((payout - fee) as u64)
        } else {
            None
        },
        event: EventBetClaimed {
            user: ctx.bet.user,
            market: ctx.bet.market,
            payout,
            pnl: ctx.bet.pnl_when(bet_won(ctx.market, ctx.bet)) as i64,
        },
    }
}

/// Settles a bet on a resolved market, once. The claim is refused exactly as
/// `claim_refusal` says, and then nothing changes. Otherwise the bet is
/// marked won or lost with its profit or loss, its stake leaves the market's
/// exposure, and the funds to pay out come back: for a bet that won, the
/// expected payout fixed at placement, less the fee; for one that lost,
/// nothing.
pub fn claim_payout(ctx: &mut ClaimPayout) -> (r: Result<Settlement, LevrBetError>)
    ensures
        match r {
            Ok(settlement) => {
                &&& claim_refusal(*old(ctx)) is None
                &&& settlement == settlement_of(*old(ctx))
                &&& *final(ctx) == (ClaimPayout {
                    market: market_after_claim(old(ctx).market, old(ctx).bet.amount),
                    bet: bet_settled(old(ctx).market, old(ctx).bet),
                    ..*old(ctx)
                })
            },
            Err(e) => {
                &&& claim_refusal(*old(ctx)) == Some(e)
                &&& *final(ctx) == *old(ctx)
            },
        },
        r is Ok && old(ctx).market.well_formed() ==> final(ctx).market.well_formed(),
        r is Ok && old(ctx).bet.well_formed() ==> final(ctx).bet.well_formed(),
        final(ctx).market.exposure <= old(ctx).market.exposure,
        final(ctx).bet.payout_expected == old(ctx).bet.payout_expected,
{
    match ctx.market.state {
        MarketState::Resolved => {},
        _ => {
            return Err(LevrBetError::MarketNotResolved);
        },
    }
    if ctx.bet.claimed {
        return Err(LevrBetError::AlreadyClaimed);
    }
    if !ctx.bet.user.same(&ctx.user) {
        return Err(LevrBetError::Unauthorized);
    }
    if !ctx.bet.market.same(&ctx.market_key) {
        return Err(LevrBetError::BetNotFound);
    }
    let winner = ctx.market.result == ctx.bet.selected_team;
    let payout: u64 = if winner {
        ctx.bet.payout_expected
    } else {
        0
    };
    let fee: u64 = if winner {
        match platform_fee(payout, ctx.config.fee_bps) {
            Ok(v) => v,
            Err(e) => {
                return Err(e);
            },
        }
    } else {
        0
    };
    let pnl_wide: i128 = if winner {
        payout as i128 - ctx.bet.amount as i128
    } else {
        -(ctx.bet.amount as i128)
    };
    if pnl_wide < i64::MIN as i128 || pnl_wide > i64::MAX as i128 {
        return Err(LevrBetError::Overflow);
    }
    let pnl: i64 = pnl_wide as i64;
    let mut to_treasury: Option<u64> = None;
    let mut to_bettor: Option<u64> = None;
    if payout > 0 {
        match ctx.config.treasury_sol {
            Some(treasury_key) => {
                if !treasury_key.same(&ctx.treasury) {
                    return Err(LevrBetError::Unauthorized);
                }
                if fee > 0 {
                    to_treasury = Some(fee);
                }
            },
            None => {},
        }
        let net: u64 = match payout.checked_sub(fee) {
            Some(v) => v,
            None => {
                return Err(LevrBetError::Overflow);
            },
        };
        to_bettor = Some(net);
    }
    let event = EventBetClaimed { user: ctx.bet.user, market: ctx.bet.market, payout, pnl };
    ctx.bet.status = if winner {
        BetStatus::SettledWin
    } else {
        BetStatus::SettledLose
    };
    ctx.bet.claimed = true;
    ctx.bet.pnl = pnl;
    ctx.market.exposure = ctx.market.exposure.saturating_sub(ctx.bet.amount);
    Ok(Settlement { payout, fee, to_treasury, to_bettor, event })
}

} // verus!
