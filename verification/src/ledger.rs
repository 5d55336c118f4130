//! What holds of a market and the bets placed on it, across instructions.

use vstd::prelude::*;
use crate::accounts::{BetAccount, ConfigAccount, MarketAccount};
use crate::args::{OpenMarketArgs, PlaceBetArgs};
use crate::context::{ClaimPayout, OpenMarket, PlaceBet, ResolveMarket};
use crate::error::LevrBetError;
use crate::fixed_point::{
    fee_of, lemma_fee_at_most_payout, lemma_payout_at_least_stake, SCALE_BPS,
};
use crate::instructions::{
    bet_placed, bet_refusal, bet_settled, bet_won, claim_refusal, fee_due, market_after_bet,
    market_after_claim, market_opened, market_resolved, payout_due, resolve_refusal,
    settlement_of,
};

verus! {

/// What a bet adds to its market's exposure: its stake until it is claimed,
/// nothing after.
pub open spec fn stake_at_risk(bet: BetAccount) -> int {
    if bet.claimed {
        0
    } else {
        bet.amount as int
    }
}

/// The stakes of the bets in `bets` that are not yet claimed, summed.
pub open spec fn outstanding(bets: Seq<BetAccount>) -> int
    decreases bets.len(),
{
    if bets.len() == 0 {
        0
    } else {
        outstanding(bets.drop_last()) + stake_at_risk(bets.last())
    }
}

/// The market's exposure is the sum of the unclaimed stakes among `bets`.
pub open spec fn balanced(market: MarketAccount, bets: Seq<BetAccount>) -> bool {
    market.exposure == outstanding(bets)
}

/// What a settlement pays out of escrow, fee and net payout together.
pub open spec fn paid_out(ctx: ClaimPayout) -> int {
    let s = settlement_of(ctx);
    (match s.to_treasury {
        Some(fee) => fee as int,
        None => 0,
    }) + (match s.to_bettor {
        Some(net) => net as int,
        None => 0,
    })
}

/// A market and the list of its bets after the orders in `orders` are
/// handed to `place_bet` one after the other, each with its own caller, time
/// and arguments, and each on the market as the one before left it: an
/// accepted order raises the exposure and adds its bet, a refused one
/// changes nothing.
pub open spec fn after_orders(
    market: MarketAccount,
    bets: Seq<BetAccount>,
    orders: Seq<(PlaceBet, PlaceBetArgs)>,
) -> (MarketAccount, Seq<BetAccount>)
    decreases orders.len(),
{
    if orders.len() == 0 {
        (market, bets)
    } else {
        let (before, placed) = after_orders(market, bets, orders.drop_last());
        let (seen, args) = orders.last();
        let ctx = PlaceBet { market: before, ..seen };
        if bet_refusal(ctx.config, before, args) is None {
            (market_after_bet(before, args.amount), placed.push(bet_placed(ctx, args)))
        } else {
            (before, placed)
        }
    }
}

/// Adding a bet to the list adds what it has at risk to the sum.
pub proof fn lemma_outstanding_push(bets: Seq<BetAccount>, bet: BetAccount)
    ensures
        outstanding(bets.push(bet)) == outstanding(bets) + stake_at_risk(bet),
{
    assert(bets.push(bet).drop_last() =~= bets);
}

/// Replacing one bet of the list changes the sum by the difference of what
/// the two have at risk.
pub proof fn lemma_outstanding_update(bets: Seq<BetAccount>, i: int, bet: BetAccount)
    requires
        0 <= i < bets.len(),
    ensures
        outstanding(bets.update(i, bet)) == outstanding(bets) - stake_at_risk(bets[i])
            + stake_at_risk(bet),
    decreases bets.len(),
{
    if i == bets.len() - 1 {
        assert(bets.update(i, bet).drop_last() =~= bets.drop_last());
    } else {
        assert(bets.update(i, bet).drop_last() =~= bets.drop_last().update(i, bet));
        lemma_outstanding_update(bets.drop_last(), i, bet);
    }
}

/// The sum is at least what any one bet of the list has at risk.
pub proof fn lemma_outstanding_covers(bets: Seq<BetAccount>, i: int)
    requires
        0 <= i < bets.len(),
    ensures
        0 <= stake_at_risk(bets[i]) <= outstanding(bets),
    decreases bets.len(),
{
    lemma_outstanding_nonnegative(bets.drop_last());
    if i < bets.len() - 1 {
        lemma_outstanding_covers(bets.drop_last(), i);
    }
}

/// The sum is never negative.
pub proof fn lemma_outstanding_nonnegative(bets: Seq<BetAccount>)
    ensures
        0 <= outstanding(bets),
    decreases bets.len(),
{
    if bets.len() > 0 {
        lemma_outstanding_nonnegative(bets.drop_last());
    }
}

/// An accepted order keeps a market balanced: with the new bet added to the
/// list, the raised exposure is again the sum of the unclaimed stakes.
pub proof fn lemma_place_bet_keeps_balance(ctx: PlaceBet, args: PlaceBetArgs, bets: Seq<BetAccount>)
    requires
        bet_refusal(ctx.config, ctx.market, args) is None,
        balanced(ctx.market, bets),
    ensures
        balanced(market_after_bet(ctx.market, args.amount), bets.push(bet_placed(ctx, args))),
        market_after_bet(ctx.market, args.amount).exposure == ctx.market.exposure + args.amount,
{
    lemma_outstanding_push(bets, bet_placed(ctx, args));
}

/// Whatever orders are placed on a balanced market, by whomever, accepted or
/// refused, in whatever sequence, the market stays balanced and within its
/// cap.
pub proof fn lemma_orders_keep_balance(
    market: MarketAccount,
    bets: Seq<BetAccount>,
    orders: Seq<(PlaceBet, PlaceBetArgs)>,
)
    requires
        balanced(market, bets),
        market.exposure <= market.max_exposure,
    ensures
        balanced(after_orders(market, bets, orders).0, after_orders(market, bets, orders).1),
        after_orders(market, bets, orders).0.exposure <= market.max_exposure,
        after_orders(market, bets, orders).0.max_exposure == market.max_exposure,
        after_orders(market, bets, orders).0.exposure >= market.exposure,
    decreases orders.len(),
{
    if orders.len() > 0 {
        lemma_orders_keep_balance(market, bets, orders.drop_last());
        let (before, placed) = after_orders(market, bets, orders.drop_last());
        let (seen, args) = orders.last();
        let ctx = PlaceBet { market: before, ..seen };
        if bet_refusal(ctx.config, before, args) is None {
            lemma_place_bet_keeps_balance(ctx, args, placed);
        }
    }
}

/// A market just opened is balanced with no bets.
pub proof fn lemma_opened_market_is_balanced(ctx: OpenMarket, args: OpenMarketArgs)
    ensures
        balanced(market_opened(ctx, args), Seq::<BetAccount>::empty()),
{
}

/// An accepted order promises a payout of at least its stake, so a bet that
/// wins never books a loss.
pub proof fn lemma_accepted_bet_pays_at_least_stake(ctx: PlaceBet, args: PlaceBetArgs)
    requires
        bet_refusal(ctx.config, ctx.market, args) is None,
    ensures
        bet_placed(ctx, args).payout_expected >= args.amount,
        bet_placed(ctx, args).pnl_when(true) >= 0,
{
    lemma_payout_at_least_stake(
        args.amount as int,
        ctx.market.odds_for(args.selected_team) as int,
        args.multiplier_bps as int,
    );
}

/// Declaring the result leaves the exposure, and so the balance, alone.
pub proof fn lemma_resolve_keeps_balance(ctx: ResolveMarket, result: u8, bets: Seq<BetAccount>)
    requires
        balanced(ctx.market, bets),
    ensures
        balanced(market_resolved(ctx.market, result), bets),
{
}

/// An accepted claim keeps a market balanced: the exposure drops by the
/// stake of the settled bet, won or lost, and is again the sum of the
/// unclaimed stakes.
pub proof fn lemma_claim_keeps_balance(ctx: ClaimPayout, bets: Seq<BetAccount>, i: int)
    requires
        claim_refusal(ctx) is None,
        0 <= i < bets.len(),
        bets[i] == ctx.bet,
        balanced(ctx.market, bets),
    ensures
        market_after_claim(ctx.market, ctx.bet.amount).exposure == ctx.market.exposure
            - ctx.bet.amount,
        balanced(
            market_after_claim(ctx.market, ctx.bet.amount),
            bets.update(i, bet_settled(ctx.market, ctx.bet)),
        ),
{
    lemma_outstanding_covers(bets, i);
    lemma_outstanding_update(bets, i, bet_settled(ctx.market, ctx.bet));
}

/// A claim on a bet that lost is accepted whenever the market is resolved,
/// the bet is unclaimed, the caller owns it, it belongs to the market, and
/// its stake can be written as a loss. It then pays nothing, takes no fee,
/// moves no funds, and books the stake as lost.
pub proof fn lemma_losing_claim(ctx: ClaimPayout)
    requires
        !bet_won(ctx.market, ctx.bet),
    ensures
        claim_refusal(ctx) is None <==> {
            &&& ctx.market.state is Resolved
            &&& !ctx.bet.claimed
            &&& ctx.bet.user == ctx.user
            &&& ctx.bet.market == ctx.market_key
            &&& -ctx.bet.amount >= i64::MIN
        },
        settlement_of(ctx).payout == 0,
        settlement_of(ctx).fee == 0,
        settlement_of(ctx).to_treasury is None,
        settlement_of(ctx).to_bettor is None,
        paid_out(ctx) == 0,
        claim_refusal(ctx) is None ==> {
            &&& settlement_of(ctx).event.pnl == -ctx.bet.amount
            &&& bet_settled(ctx.market, ctx.bet).pnl == -ctx.bet.amount
            &&& bet_settled(ctx.market, ctx.bet).status is SettledLose
        },
{
}

/// An accepted claim on a bet that won pays the payout fixed at placement:
/// the fee out of it, rounded down, and the rest to the bettor.
pub proof fn lemma_winning_claim(ctx: ClaimPayout)
    requires
        claim_refusal(ctx) is None,
        bet_won(ctx.market, ctx.bet),
    ensures
        settlement_of(ctx).payout == ctx.bet.payout_expected,
        settlement_of(ctx).fee == fee_of(ctx.bet.payout_expected as int, ctx.config.fee_bps as int),
        ctx.bet.payout_expected > 0 ==> settlement_of(ctx).to_bettor == Some(
            (ctx.bet.payout_expected - settlement_of(ctx).fee) as u64,
        ),
        settlement_of(ctx).event.pnl == ctx.bet.payout_expected - ctx.bet.amount,
        bet_settled(ctx.market, ctx.bet).pnl == ctx.bet.payout_expected - ctx.bet.amount,
        bet_settled(ctx.market, ctx.bet).status is SettledWin,
        bet_settled(ctx.market, ctx.bet).payout_expected == ctx.bet.payout_expected,
{
}

/// No accepted claim pays more out of escrow than the payout fixed when the
/// bet was placed: the fee is at most the payout, and fee and net payout
/// together are at most the payout.
pub proof fn lemma_paid_out_within_payout(ctx: ClaimPayout)
    requires
        claim_refusal(ctx) is None,
    ensures
        0 <= settlement_of(ctx).fee <= settlement_of(ctx).payout <= ctx.bet.payout_expected,
        0 <= paid_out(ctx) <= settlement_of(ctx).payout,
{
    if bet_won(ctx.market, ctx.bet) {
        assert(0 <= ctx.bet.payout_expected * ctx.config.fee_bps && (ctx.bet.payout_expected == 0
            ==> ctx.bet.payout_expected * ctx.config.fee_bps == 0)) by (nonlinear_arith)
            requires
                0 <= ctx.bet.payout_expected,
                0 <= ctx.config.fee_bps,
        ;
    }
}

/// Under a well-formed configuration the fee never stands in the way of a
/// claim: it is at most the payout, and a claim is accepted exactly when the
/// market is resolved, the bet is unclaimed, owned by the caller and placed
/// on this market, its profit or loss can be written down, and, where funds
/// are due and a fee destination is configured, the named destination is
/// that one.
pub proof fn lemma_fee_never_blocks(ctx: ClaimPayout)
    requires
        ctx.config.well_formed(),
    ensures
        0 <= fee_due(ctx) <= payout_due(ctx),
        claim_refusal(ctx) is None <==> {
            &&& ctx.market.state is Resolved
            &&& !ctx.bet.claimed
            &&& ctx.bet.user == ctx.user
            &&& ctx.bet.market == ctx.market_key
            &&& i64::MIN <= ctx.bet.pnl_when(bet_won(ctx.market, ctx.bet)) <= i64::MAX
            &&& (payout_due(ctx) > 0 && ctx.config.treasury_sol is Some
                ==> ctx.config.treasury_sol == Some(ctx.treasury))
        },
{
    if bet_won(ctx.market, ctx.bet) {
        lemma_fee_at_most_payout(ctx.bet.payout_expected as int, ctx.config.fee_bps as int);
    }
}

/// A bet is claimed once: after an accepted claim, any further claim on the
/// settled bet, by whomever, is refused as already claimed while the market
/// stays resolved, and so moves no funds.
pub proof fn lemma_second_claim_refused(first: ClaimPayout, second: ClaimPayout)
    requires
        claim_refusal(first) is None,
        second.bet == bet_settled(first.market, first.bet),
        second.market == market_after_claim(first.market, first.bet.amount),
    ensures
        claim_refusal(second) == Some(LevrBetError::AlreadyClaimed),
{
}

/// A market is resolved once: after an accepted resolution, any further one
/// is refused, and the declared result stands.
pub proof fn lemma_second_resolve_refused(first: ResolveMarket, result: u8, second: ResolveMarket, again: u8)
    requires
        resolve_refusal(first, result) is None,
        second.market == market_resolved(first.market, result),
    ensures
        resolve_refusal(second, again) is Some,
{
}

/// An order whose stake would lift the exposure above the cap is always
/// refused. The reason given is that the cap is exceeded exactly when the
/// market is open, stake, multiplier, team and odds are in range, and the
/// sum fits in 64 bits; else an earlier check has failed and gives its own
/// reason.
pub proof fn lemma_cap_breach_refused(cfg: ConfigAccount, market: MarketAccount, args: PlaceBetArgs)
    requires
        market.exposure + args.amount > market.max_exposure,
    ensures
        bet_refusal(cfg, market, args) is Some,
        bet_refusal(cfg, market, args) == Some(LevrBetError::MaxExposureExceeded) <==> {
            &&& market.state is Open
            &&& cfg.min_bet <= args.amount <= cfg.max_bet
            &&& SCALE_BPS <= args.multiplier_bps <= cfg.max_multiplier_bps
            &&& (args.selected_team == 1 || args.selected_team == 2)
            &&& SCALE_BPS <= market.odds_for(args.selected_team) <= cfg.max_odds_bps
            &&& market.exposure + args.amount <= u64::MAX
        },
{
}

/// On an open market, an order with a stake in range and a multiplier below
/// 1.00 or above the configured limit is refused for its multiplier; one
/// with a multiplier in range and a team other than 1 and 2 is refused for
/// its team.
pub proof fn lemma_multiplier_and_team_checked(cfg: ConfigAccount, market: MarketAccount, args: PlaceBetArgs)
    requires
        market.state is Open,
        cfg.min_bet <= args.amount <= cfg.max_bet,
    ensures
        args.multiplier_bps < 10_000 || args.multiplier_bps > cfg.max_multiplier_bps
            ==> bet_refusal(cfg, market, args) == Some(LevrBetError::InvalidMultiplier),
        10_000 <= args.multiplier_bps <= cfg.max_multiplier_bps && args.selected_team != 1
            && args.selected_team != 2 ==> bet_refusal(cfg, market, args) == Some(
            LevrBetError::InvalidTeam,
        ),
{
}

/// Declaring a result is refused as unauthorized, whatever else holds, when
/// the caller is not the authority.
pub proof fn lemma_resolve_needs_authority(ctx: ResolveMarket, result: u8)
    requires
        ctx.config.authority != ctx.authority,
    ensures
        resolve_refusal(ctx, result) == Some(LevrBetError::Unauthorized),
{
}

} // verus!
