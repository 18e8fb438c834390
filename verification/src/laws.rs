//! Laws that tie the operations together: what holds across two calls, or
//! of every holder at once.

use vstd::prelude::*;
use crate::fixed::{div_fixed_spec, wei_to_fixed_spec, DECIMALS};
use crate::lifecycle::{
    add_liquidity_spec, calculate_trade_spec, claim_winnings_spec, close_position_spec, create_market_spec,
    remove_liquidity_spec, resolve_market_spec, shares_to_mint_spec, trade_distribution_spec,
    CallContext, NewMarket, Revert, TradeCounters, TradeRequest,
};
use crate::records::{
    Address, Market, Position, MARKET_STATUS_CLOSED, MARKET_STATUS_OPEN, MARKET_STATUS_RESOLVED,
};

verus! {

/// The sum of a list of share balances, one for each holder.
pub open spec fn lp_total(balances: Seq<nat>) -> nat
    decreases balances.len(),
{
    if balances.len() == 0 {
        0
    } else {
        lp_total(balances.drop_last()) + balances.last()
    }
}

/// No holder holds more than all holders together.
pub proof fn lemma_balance_within_total(balances: Seq<nat>, i: int)
    requires
        0 <= i < balances.len(),
    ensures
        balances[i] <= lp_total(balances),
    decreases balances.len(),
{
    if i < balances.len() - 1 {
        lemma_balance_within_total(balances.drop_last(), i);
    }
}

/// Changing one balance changes the sum by as much.
pub proof fn lemma_total_after_update(balances: Seq<nat>, i: int, v: nat)
    requires
        0 <= i < balances.len(),
    ensures
        lp_total(balances.update(i, v)) + balances[i] == lp_total(balances) + v,
    decreases balances.len(),
{
    let updated = balances.update(i, v);
    if i == balances.len() - 1 {
        assert(updated.drop_last() =~= balances.drop_last());
    } else {
        assert(updated.drop_last() =~= balances.drop_last().update(i, v));
        lemma_total_after_update(balances.drop_last(), i, v);
    }
}

/// A new holder adds what it holds to the sum.
pub proof fn lemma_total_after_push(balances: Seq<nat>, v: nat)
    ensures
        lp_total(balances.push(v)) == lp_total(balances) + v,
{
    assert(balances.push(v).drop_last() =~= balances);
}

/// A new market has one holder, its creator, who holds all its shares.
pub proof fn lemma_shares_conserved_by_create(ctx: CallContext, new: NewMarket, market_count: u64)
    requires
        create_market_spec(true, ctx, new, market_count) is Ok,
    ensures
        ({
            let created = create_market_spec(true, ctx, new, market_count)->Ok_0;
            lp_total(seq![created.creator_shares as nat]) == created.market.total_lp_shares
        }),
{
    let created = create_market_spec(true, ctx, new, market_count)->Ok_0;
    let one = seq![created.creator_shares as nat];
    assert(one.drop_last() =~= Seq::<nat>::empty());
    assert(lp_total(one.drop_last()) == 0);
}

/// Where the balances of all holders sum to the market's shares, they
/// still do once holder `i` has added liquidity.
pub proof fn lemma_shares_conserved_by_add(m: Market, value_wei: u64, balances: Seq<nat>, i: int)
    requires
        0 <= i < balances.len(),
        balances[i] <= u64::MAX,
        lp_total(balances) == m.total_lp_shares,
        add_liquidity_spec(true, Some(m), value_wei, balances[i] as u64) is Ok,
    ensures
        ({
            let added = add_liquidity_spec(true, Some(m), value_wei, balances[i] as u64)->Ok_0;
            lp_total(balances.update(i, added.new_balance as nat)) == added.market.total_lp_shares
        }),
{
    let added = add_liquidity_spec(true, Some(m), value_wei, balances[i] as u64)->Ok_0;
    lemma_total_after_update(balances, i, added.new_balance as nat);
}

/// Where the balances of all holders sum to the market's shares, they
/// still do once a holder who held none has added liquidity.
pub proof fn lemma_shares_conserved_by_first_add(m: Market, value_wei: u64, balances: Seq<nat>)
    requires
        lp_total(balances) == m.total_lp_shares,
        add_liquidity_spec(true, Some(m), value_wei, 0) is Ok,
    ensures
        ({
            let added = add_liquidity_spec(true, Some(m), value_wei, 0)->Ok_0;
            lp_total(balances.push(added.new_balance as nat)) == added.market.total_lp_shares
        }),
{
    let added = add_liquidity_spec(true, Some(m), value_wei, 0)->Ok_0;
    lemma_total_after_push(balances, added.new_balance as nat);
}

/// Where the balances of all holders sum to the market's shares, they
/// still do once holder `i` has removed liquidity.
pub proof fn lemma_shares_conserved_by_remove(m: Market, shares: u64, balances: Seq<nat>, i: int)
    requires
        0 <= i < balances.len(),
        balances[i] <= u64::MAX,
        lp_total(balances) == m.total_lp_shares,
        remove_liquidity_spec(true, Some(m), shares, balances[i] as u64) is Ok,
    ensures
        ({
            let removed = remove_liquidity_spec(true, Some(m), shares, balances[i] as u64)->Ok_0;
            lp_total(balances.update(i, removed.new_balance as nat))
                == removed.market.total_lp_shares
        }),
{
    let removed = remove_liquidity_spec(true, Some(m), shares, balances[i] as u64)->Ok_0;
    lemma_balance_within_total(balances, i);
    lemma_total_after_update(balances, i, removed.new_balance as nat);
}

/// A position that has been claimed cannot be claimed again, whoever asks
/// and whatever the market holds by then.
pub proof fn lemma_no_double_claim(
    position: Position,
    caller: Address,
    market: Option<Market>,
    later_caller: Address,
    later_market: Option<Market>,
)
    requires
        claim_winnings_spec(true, Some(position), caller, market) is Ok,
    ensures
        ({
            let claimed = claim_winnings_spec(true, Some(position), caller, market)->Ok_0.position;
            &&& position.claimed != 1
            &&& claimed.claimed == 1
            &&& claim_winnings_spec(true, Some(claimed), later_caller, later_market) is Err
            &&& later_caller@ == claimed.trader@ ==> claim_winnings_spec(
    true,
                Some(claimed),
                later_caller,
                later_market,
            ) == Err::<crate::lifecycle::WinningsClaimed, Revert>(Revert::AlreadyClaimed)
        }),
{
}

/// A close keeps the id of the position, and a closed position cannot be
/// closed again.
pub proof fn lemma_close_is_final(
    position: Position,
    caller: Address,
    market: Option<Market>,
    block_number: u64,
    later_caller: Address,
    later_market: Option<Market>,
    later_block: u64,
)
    requires
        close_position_spec(true, Some(position), caller, market, block_number) is Ok,
    ensures
        ({
            let closed = close_position_spec(
                true,
                Some(position),
                caller,
                market,
                block_number,
            )->Ok_0.position;
            &&& closed.position_id == position.position_id
            &&& closed.cost_basis == position.cost_basis
            &&& close_position_spec(true, Some(closed), later_caller, later_market, later_block)
                == Err::<crate::lifecycle::PositionClosed, Revert>(Revert::CloseAlreadyClosed)
        }),
{
}

/// A position that is closed before its market is resolved has had its
/// payout: it comes back claimed, and no claim on it succeeds afterwards,
/// whoever asks and whatever the market holds by then. Its trader is told
/// that it is already claimed.
pub proof fn lemma_close_before_resolution_claims(
    position: Position,
    caller: Address,
    market: Market,
    block_number: u64,
    later_caller: Address,
    later_market: Option<Market>,
)
    requires
        market.status != MARKET_STATUS_RESOLVED,
        close_position_spec(true, Some(position), caller, Some(market), block_number) is Ok,
    ensures
        ({
            let closed = close_position_spec(
                true,
                Some(position),
                caller,
                Some(market),
                block_number,
            )->Ok_0.position;
            &&& closed.claimed == 1
            &&& claim_winnings_spec(true, Some(closed), later_caller, later_market) is Err
            &&& later_caller@ == closed.trader@ ==> claim_winnings_spec(
                true,
                Some(closed),
                later_caller,
                later_market,
            ) == Err::<crate::lifecycle::WinningsClaimed, Revert>(Revert::AlreadyClaimed)
        }),
{
}

/// Before `initialize` every operation is refused as not initialized,
/// whatever it is handed.
pub proof fn lemma_refused_before_initialize(
    ctx: CallContext,
    new: NewMarket,
    market: Option<Market>,
    position: Option<Position>,
    request: TradeRequest,
    counters: TradeCounters,
    amount: u64,
    balance: u64,
    owner: Address,
    point: u64,
    variance: u64,
)
    ensures
        create_market_spec(false, ctx, new, amount) == Err::<
            crate::lifecycle::MarketCreated,
            Revert,
        >(Revert::NotInitialized),
        add_liquidity_spec(false, market, amount, balance) == Err::<
            crate::lifecycle::LiquidityAdded,
            Revert,
        >(Revert::NotInitialized),
        remove_liquidity_spec(false, market, amount, balance) == Err::<
            crate::lifecycle::LiquidityRemoved,
            Revert,
        >(Revert::NotInitialized),
        calculate_trade_spec(false, market, point, variance, amount) == Err::<
            (u64, u64, u64),
            Revert,
        >(Revert::NotInitialized),
        trade_distribution_spec(false, market, ctx, request, counters) matches Err(no)
            && no.reason == Revert::NotInitialized && no.closed_market is None,
        close_position_spec(false, position, ctx.caller, market, amount) == Err::<
            crate::lifecycle::PositionClosed,
            Revert,
        >(Revert::NotInitialized),
        resolve_market_spec(false, market, ctx.caller, owner, ctx.now, point, variance) == Err::<
            Market,
            Revert,
        >(Revert::NotInitialized),
        claim_winnings_spec(false, position, ctx.caller, market) == Err::<
            crate::lifecycle::WinningsClaimed,
            Revert,
        >(Revert::NotInitialized),
{
}

/// Liquidity that is added and at once removed, share for share, brings
/// back no more backing than was put in; and where the market holds no
/// fees, nothing else comes back with it.
pub proof fn lemma_add_then_remove(m: Market, value_wei: u64, balance: u64)
    requires
        add_liquidity_spec(true, Some(m), value_wei, balance) is Ok,
        remove_liquidity_spec(
    true,
            Some(add_liquidity_spec(true, Some(m), value_wei, balance)->Ok_0.market),
            add_liquidity_spec(true, Some(m), value_wei, balance)->Ok_0.shares_minted,
            add_liquidity_spec(true, Some(m), value_wei, balance)->Ok_0.new_balance,
        ) is Ok,
    ensures
        ({
            let added = add_liquidity_spec(true, Some(m), value_wei, balance)->Ok_0;
            let removed = remove_liquidity_spec(
    true,
                Some(added.market),
                added.shares_minted,
                added.new_balance,
            )->Ok_0;
            &&& removed.backing_portion <= wei_to_fixed_spec(value_wei)
            &&& m.accumulated_fees == 0 ==> removed.backing_returned <= wei_to_fixed_spec(
                value_wei,
            )
        }),
{
    let added = add_liquidity_spec(true, Some(m), value_wei, balance)->Ok_0;
    let removed = remove_liquidity_spec(
    true,
        Some(added.market),
        added.shares_minted,
        added.new_balance,
    )->Ok_0;
    let b = wei_to_fixed_spec(value_wei) as int;
    let tb = m.total_backing as int;
    let ts = m.total_lp_shares as int;
    let s = added.shares_minted as int;
    let tb2 = added.market.total_backing as int;
    let ts2 = added.market.total_lp_shares as int;
    let d = DECIMALS as int;
    assert(tb2 == tb + b && ts2 == ts + s);
    assert(ts2 > 0);
    let ratio = div_fixed_spec(added.shares_minted, added.market.total_lp_shares)->Ok_0 as int;
    assert(ratio == (s * d) / ts2);
    lemma_floor_bound(s * d, ts2);
    assert(ratio * ts2 <= s * d);
    // what is minted is at most the pool's shares in proportion to the backing
    assert(s * tb <= b * ts) by {
        if tb == 0 {
            assert(s * tb == 0) by (nonlinear_arith)
                requires
                    tb == 0,
            ;
            assert(b * ts >= 0) by (nonlinear_arith)
                requires
                    b >= 0,
                    ts >= 0,
            ;
        } else {
            let r1 = div_fixed_spec(wei_to_fixed_spec(value_wei), m.total_backing)->Ok_0 as int;
            assert(shares_to_mint_spec(m, wei_to_fixed_spec(value_wei)) is Ok);
            assert(r1 == (b * d) / tb);
            lemma_floor_bound(b * d, tb);
            assert(s == (r1 * ts) / d);
            lemma_floor_bound(r1 * ts, d);
            lemma_proportion(s, tb, b, ts, r1, d);
        }
    }
    let portion = removed.backing_portion as int;
    assert(portion == (ratio * tb2) / d);
    lemma_floor_bound(ratio * tb2, d);
    lemma_portion_bound(portion, ratio, tb, b, ts, s, d);
    if m.accumulated_fees == 0 {
        assert(removed.backing_returned == removed.backing_portion);
    }
}

/// A quotient rounded down, times the divisor, does not exceed the dividend.
proof fn lemma_floor_bound(x: int, y: int)
    requires
        x >= 0,
        y > 0,
    ensures
        (x / y) * y <= x,
        x / y >= 0,
{
    vstd::arithmetic::div_mod::lemma_fundamental_div_mod(x, y);
    vstd::arithmetic::div_mod::lemma_mod_bound(x, y);
    assert((x / y) * y == y * (x / y)) by (nonlinear_arith);
    vstd::arithmetic::div_mod::lemma_div_pos_is_pos(x, y);
}

proof fn lemma_proportion(s: int, tb: int, b: int, ts: int, r1: int, d: int)
    requires
        s >= 0,
        tb > 0,
        b >= 0,
        ts >= 0,
        r1 >= 0,
        d > 0,
        r1 * tb <= b * d,
        s * d <= r1 * ts,
    ensures
        s * tb <= b * ts,
{
    assert(s * d * tb <= r1 * ts * tb) by (nonlinear_arith)
        requires
            s * d <= r1 * ts,
            tb > 0,
    ;
    assert(r1 * ts * tb <= b * d * ts) by (nonlinear_arith)
        requires
            r1 * tb <= b * d,
            ts >= 0,
    ;
    assert(s * tb <= b * ts) by (nonlinear_arith)
        requires
            s * d * tb <= b * d * ts,
            d > 0,
    ;
}

proof fn lemma_portion_bound(portion: int, ratio: int, tb: int, b: int, ts: int, s: int, d: int)
    requires
        portion >= 0,
        ratio >= 0,
        tb >= 0,
        b >= 0,
        ts >= 0,
        s >= 0,
        d > 0,
        ts + s > 0,
        ratio * (ts + s) <= s * d,
        s * tb <= b * ts,
        portion * d <= ratio * (tb + b),
    ensures
        portion <= b,
{
    assert(ratio * (tb + b) * (ts + s) <= s * d * (tb + b)) by (nonlinear_arith)
        requires
            ratio * (ts + s) <= s * d,
            tb + b >= 0,
    ;
    assert(s * d * (tb + b) <= d * b * (ts + s)) by (nonlinear_arith)
        requires
            s * tb <= b * ts,
            d > 0,
            s >= 0,
            b >= 0,
    ;
    assert(portion * d * (ts + s) <= ratio * (tb + b) * (ts + s)) by (nonlinear_arith)
        requires
            portion * d <= ratio * (tb + b),
            ts + s > 0,
    ;
    assert(portion <= b) by (nonlinear_arith)
        requires
            portion * d * (ts + s) <= d * b * (ts + s),
            d > 0,
            ts + s > 0,
    ;
}

/// A status may stay, an open market may close, and a market that is not
/// resolved may be resolved; nothing else.
pub open spec fn status_moves_forward(before: Market, after: Market) -> bool {
    ||| after.status == before.status
    ||| before.status == MARKET_STATUS_OPEN && after.status == MARKET_STATUS_CLOSED
    ||| before.status != MARKET_STATUS_RESOLVED && after.status == MARKET_STATUS_RESOLVED
}

/// Every operation that stores a market moves its status forward or leaves
/// it: a new market is open, liquidity leaves the status alone, a trade
/// leaves a market open or closes it, and only resolving resolves.
pub proof fn lemma_status_moves_forward(
    m: Market,
    ctx: CallContext,
    request: TradeRequest,
    counters: TradeCounters,
    shares: u64,
    balance: u64,
    owner: Address,
    final_mean: u64,
    final_variance: u64,
)
    ensures
        add_liquidity_spec(true, Some(m), ctx.value_wei, balance) matches Ok(added)
            ==> added.market.status == m.status,
        remove_liquidity_spec(true, Some(m), shares, balance) matches Ok(removed)
            ==> removed.market.status == m.status,
        trade_distribution_spec(true, Some(m), ctx, request, counters) matches Ok(done) ==> m.status
            == MARKET_STATUS_OPEN && done.market.status == MARKET_STATUS_OPEN,
        trade_distribution_spec(true, Some(m), ctx, request, counters) matches Err(no)
            ==> (no.closed_market matches Some(c) ==> m.status == MARKET_STATUS_OPEN && c.status
            == MARKET_STATUS_CLOSED && ctx.now >= m.close_time),
        resolve_market_spec(true, Some(m), ctx.caller, owner, ctx.now, final_mean, final_variance)
            matches Ok(resolved) ==> status_moves_forward(m, resolved) && resolved.status
            == MARKET_STATUS_RESOLVED,
{
}

/// A resolved market keeps its status and its resolution through every
/// operation that stores it, and cannot be resolved again.
pub proof fn lemma_resolution_is_final(
    m: Market,
    ctx: CallContext,
    request: TradeRequest,
    counters: TradeCounters,
    shares: u64,
    balance: u64,
    owner: Address,
    final_mean: u64,
    final_variance: u64,
)
    requires
        m.status == MARKET_STATUS_RESOLVED,
    ensures
        add_liquidity_spec(true, Some(m), ctx.value_wei, balance) is Err,
        trade_distribution_spec(true, Some(m), ctx, request, counters) matches Err(no)
            && no.closed_market is None,
        resolve_market_spec(true, Some(m), ctx.caller, owner, ctx.now, final_mean, final_variance)
            is Err,
        remove_liquidity_spec(true, Some(m), shares, balance) matches Ok(removed) ==> {
            &&& removed.market.status == MARKET_STATUS_RESOLVED
            &&& removed.market.resolution_mean == m.resolution_mean
            &&& removed.market.resolution_variance == m.resolution_variance
        },
{
}

} // verus!
