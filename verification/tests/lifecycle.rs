use distribution_market::fixed::{CalcError, DECIMALS, MIN_VARIANCE};
use distribution_market::lifecycle::{
    add_liquidity, calculate_trade, claim_winnings, close_position, create_market, initialize,
    position_value_now, remove_liquidity, resolve_market, settle_transfer, total_value_locked,
    trade_distribution, transfer_wei, CallContext, Initialized, NewMarket, Revert, TradeCounters,
    TradeRefused, TradeRequest, TransferPolicy,
};
use distribution_market::records::{Market, Position};

const D: u64 = DECIMALS;
const K: u64 = 10 * D;
const CREATOR: [u8; 20] = [1u8; 20];
const TRADER: [u8; 20] = [2u8; 20];
const OWNER: [u8; 20] = [3u8; 20];
const OTHER: [u8; 20] = [4u8; 20];
const CLOSE_TIME: u64 = 2_000_000;

fn ctx(caller: [u8; 20], value_wei: u64, now: u64) -> CallContext {
    CallContext { caller, value_wei, now, block_number: 1 }
}

fn new_market() -> NewMarket {
    NewMarket { close_time: CLOSE_TIME, k_norm: K, initial_mean: 50 * D, initial_variance: 4 * D }
}

/// A market of norm ten, backed with ten units.
fn backed_market() -> Market {
    create_market(true, &ctx(CREATOR, 10_000_000_000 * D, 1000), &new_market(), 0).unwrap().market
}

/// The market once the trade of the scenarios has been made.
fn traded() -> (Market, Position) {
    let request = TradeRequest {
        market_id: 0,
        new_mean: 52 * D,
        new_variance: 4 * D,
        size: D,
        max_cost: 12_560_783_609 + D,
    };
    let counters = TradeCounters { position_count: 0, trader_position_count: 0 };
    let done = trade_distribution(
        true,
        Some(backed_market()),
        &ctx(TRADER, 12_560_783_609 * D, 1000),
        &request,
        &counters,
    )
    .unwrap();
    (done.market, done.position)
}

#[test]
fn initialize_once() {
    assert_eq!(
        initialize(false, OWNER),
        Ok(Initialized { owner: OWNER, market_count: 0, position_count: 0, block_number: 1 })
    );
    assert_eq!(initialize(true, OWNER), Err(Revert::AlreadyInitialized));
}

#[test]
fn create_then_read() {
    let created = create_market(true, &ctx(CREATOR, 10_000_000_000 * D, 1000), &new_market(), 0).unwrap();
    assert_eq!(created.market_id, 0);
    assert_eq!(created.market_count, 1);
    assert_eq!(created.creator_shares, 10 * D);
    let m = created.market;
    assert_eq!(m.creator, CREATOR);
    assert_eq!(m.creation_time, 1000);
    assert_eq!(m.close_time, CLOSE_TIME);
    assert_eq!(m.current_mean, 50 * D);
    assert_eq!(m.current_variance, 4 * D);
    assert_eq!(m.k_norm, K);
    assert_eq!(m.b_backing, 10 * D);
    assert_eq!(m.total_backing, 10 * D);
    assert_eq!(m.total_lp_shares, 10 * D);
    assert_eq!(m.status, 0);
    assert_eq!((m.accumulated_fees, m.next_position_id, m.total_volume), (0, 0, 0));
    assert_eq!((m.resolution_mean, m.resolution_variance), (0, 0));
}

#[test]
fn create_with_a_backing_below_the_norm_is_refused() {
    // a hundred units of wei are a backing of one hundred, far below a norm of ten times the scale
    assert_eq!(
        create_market(true, &ctx(CREATOR, 100 * D, 1000), &new_market(), 0),
        Err(Revert::BackingConstraintViolated)
    );
    // with a norm that the backing covers the same value opens the market
    let small = NewMarket { k_norm: 100, ..new_market() };
    let created = create_market(true, &ctx(CREATOR, 100 * D, 1000), &small, 0).unwrap();
    assert_eq!(created.market_id, 0);
    assert_eq!(created.market.current_mean, 50 * D);
    assert_eq!(created.market.current_variance, 4 * D);
    assert_eq!(created.market.b_backing, 100);
    assert_eq!(created.market.status, 0);
}

#[test]
fn create_takes_the_next_id() {
    let created = create_market(true, &ctx(CREATOR, 10_000_000_000 * D, 1), &new_market(), 41).unwrap();
    assert_eq!((created.market_id, created.market_count), (41, 42));
    assert_eq!(
        create_market(true, &ctx(CREATOR, 10_000_000_000 * D, 1), &new_market(), u64::MAX),
        Err(Revert::ArithmeticOverflow)
    );
}

#[test]
fn create_refusals_in_their_order() {
    let low = NewMarket { initial_variance: MIN_VARIANCE - 1, ..new_market() };
    assert_eq!(create_market(true, &ctx(CREATOR, 0, 1), &low, 0), Err(Revert::VarianceTooSmall));
    assert_eq!(create_market(true, &ctx(CREATOR, 0, 1), &new_market(), 0), Err(Revert::MustProvideBacking));
    assert_eq!(create_market(true, &ctx(CREATOR, D - 1, 1), &new_market(), 0), Err(Revert::BackingTooSmall));
    let huge = NewMarket { k_norm: u64::MAX, initial_variance: u64::MAX, ..new_market() };
    assert_eq!(create_market(true, &ctx(CREATOR, D, 1), &huge, 0), Err(Revert::LambdaFailed));
    assert_eq!(
        create_market(true, &ctx(CREATOR, D, 1), &new_market(), 0),
        Err(Revert::BackingConstraintViolated)
    );
    let at_floor = NewMarket { initial_variance: MIN_VARIANCE, k_norm: 1, ..new_market() };
    assert!(create_market(true, &ctx(CREATOR, D, 1), &at_floor, 0).is_ok());
}

#[test]
fn add_liquidity_scaled() {
    let mut m = backed_market();
    m.b_backing = 100;
    m.total_backing = 100;
    m.total_lp_shares = 100;
    let added = add_liquidity(true, Some(m), 50 * D, 0).unwrap();
    assert_eq!(added.shares_minted, 50);
    assert_eq!(added.new_balance, 50);
    assert_eq!(added.market.total_lp_shares, 150);
    assert_eq!(added.market.total_backing, 150);
    assert_eq!(added.market.b_backing, 150);
    assert_eq!(Market { total_lp_shares: 100, total_backing: 100, b_backing: 100, ..added.market }, m);
}

#[test]
fn add_liquidity_rounds_shares_down() {
    let mut m = backed_market();
    m.b_backing = 3;
    m.total_backing = 3;
    m.total_lp_shares = 3;
    // 1/3 of three shares is 0.999999999, which is no share
    let added = add_liquidity(true, Some(m), D, 5).unwrap();
    assert_eq!(added.shares_minted, 0);
    assert_eq!(added.new_balance, 5);
    assert_eq!(added.market.total_backing, 4);
    assert_eq!(added.market.total_lp_shares, 3);
}

#[test]
fn add_liquidity_into_an_empty_pool_mints_the_value() {
    let mut m = backed_market();
    m.b_backing = 0;
    m.total_backing = 0;
    m.total_lp_shares = 0;
    let added = add_liquidity(true, Some(m), 7 * D, 0).unwrap();
    assert_eq!((added.shares_minted, added.market.total_backing, added.market.total_lp_shares), (7, 7, 7));
}

#[test]
fn add_liquidity_refusals() {
    let m = backed_market();
    assert_eq!(add_liquidity(true, None, D, 0), Err(Revert::MarketNotFound));
    assert_eq!(add_liquidity(true, Some(Market { status: 1, ..m }), D, 0), Err(Revert::MarketNotOpen));
    assert_eq!(add_liquidity(true, Some(Market { status: 2, ..m }), D, 0), Err(Revert::MarketNotOpen));
    assert_eq!(add_liquidity(true, Some(m), D - 1, 0), Err(Revert::MustProvideLiquidity));
    assert_eq!(
        add_liquidity(true, Some(Market { total_backing: 1, total_lp_shares: u64::MAX, ..m }), 2 * D, 0),
        Err(Revert::LpShareOverflow)
    );
    assert_eq!(
        add_liquidity(true, Some(Market { total_backing: u64::MAX, ..m }), D, 0),
        Err(Revert::ArithmeticOverflow)
    );
    assert_eq!(
        add_liquidity(true, Some(Market { total_lp_shares: u64::MAX, ..m }), 10 * D, 0),
        Err(Revert::ArithmeticOverflow)
    );
    assert_eq!(
        add_liquidity(true, Some(Market { current_variance: MIN_VARIANCE - 1, ..m }), D, 0),
        Err(Revert::VarianceConstraint)
    );
    assert_eq!(add_liquidity(true, Some(m), 10_000_000_000 * D, u64::MAX), Err(Revert::ArithmeticOverflow));
}

#[test]
fn remove_liquidity_returns_the_share_of_backing_and_fees() {
    let mut m = Market { k_norm: 9 * D, ..backed_market() };
    m.accumulated_fees = 4 * D;
    // a tenth of the shares: a tenth of fourteen units
    let removed = remove_liquidity(true, Some(m), D, 3 * D).unwrap();
    assert_eq!(removed.backing_returned, 1_400_000_000);
    assert_eq!(removed.backing_portion, D);
    assert_eq!(removed.new_balance, 2 * D);
    assert_eq!(removed.market.total_backing, 9 * D);
    assert_eq!(removed.market.b_backing, 9 * D);
    assert_eq!(removed.market.total_lp_shares, 9 * D);
    assert_eq!(removed.market.accumulated_fees, 3_600_000_000);
    assert_eq!(removed.transfer_wei, 1_400_000_000 * D);
}

#[test]
fn remove_liquidity_keeps_the_minimum() {
    let mut m = backed_market();
    m.k_norm = 9 * D + 1;
    assert_eq!(remove_liquidity(true, Some(m), D, D), Err(Revert::MinimumLiquidity));
    m.k_norm = 9 * D;
    assert!(remove_liquidity(true, Some(m), D, D).is_ok());
    // all shares may leave, whatever the norm
    m.k_norm = K;
    let removed = remove_liquidity(true, Some(m), 10 * D, 10 * D).unwrap();
    assert_eq!(removed.market.total_lp_shares, 0);
    assert_eq!(removed.market.total_backing, 0);
    assert_eq!(removed.backing_returned, 10 * D);
    assert_eq!(removed.new_balance, 0);
}

#[test]
fn remove_liquidity_refusals() {
    let m = backed_market();
    assert_eq!(remove_liquidity(true, None, 1, 1), Err(Revert::MarketNotFound));
    assert_eq!(remove_liquidity(true, Some(m), 1, 0), Err(Revert::NoLpBalance));
    assert_eq!(remove_liquidity(true, Some(m), 0, 1), Err(Revert::CannotBurnZero));
    assert_eq!(remove_liquidity(true, Some(m), 2, 1), Err(Revert::InsufficientLpShares));
    assert_eq!(
        remove_liquidity(true, Some(Market { accumulated_fees: u64::MAX, ..m }), 1, 1),
        Err(Revert::ArithmeticOverflow)
    );
    assert_eq!(
        remove_liquidity(true, Some(Market { total_lp_shares: 0, ..m }), 1, 1),
        Err(Revert::RatioFailed)
    );
    assert_eq!(
        remove_liquidity(true, Some(Market { total_lp_shares: 1, ..m }), u64::MAX, u64::MAX),
        Err(Revert::RatioFailed)
    );
    assert_eq!(
        remove_liquidity(
        true,
            Some(Market { total_lp_shares: 1, total_backing: u64::MAX, accumulated_fees: 0, ..m }),
            10,
            10
        ),
        Err(Revert::BackingOverflow)
    );
    assert_eq!(
        remove_liquidity(true, Some(Market { current_variance: 5, ..m }), 1, 1),
        Err(Revert::WouldViolateVariance)
    );
}

#[test]
fn a_closed_or_resolved_market_still_lets_liquidity_out() {
    let m = Market {
        status: 2,
        k_norm: D,
        resolution_mean: 52 * D,
        resolution_variance: 4 * D,
        ..backed_market()
    };
    let removed = remove_liquidity(true, Some(m), D, D).unwrap();
    assert_eq!(removed.market.status, 2);
    assert_eq!(removed.market.resolution_mean, 52 * D);
    assert_eq!(removed.market.resolution_variance, 4 * D);
}

#[test]
fn calculate_trade_prices_without_moving() {
    let m = backed_market();
    assert_eq!(calculate_trade(true, Some(m), 52 * D, 4 * D, D), Ok((12_560_783_609, 37_569_641, 0)));
    assert_eq!(calculate_trade(true, Some(m), 48 * D, 4 * D, D), Ok((12_560_783_609, 37_569_641, 0)));
    assert_eq!(
        calculate_trade(true, Some(m), 52 * D, 9 * D, D),
        Ok((13_113_530_912, 39_222_923, 5_625_920_934))
    );
}

#[test]
fn calculate_trade_refusals() {
    let m = backed_market();
    assert_eq!(calculate_trade(true, None, 52 * D, 4 * D, D), Err(Revert::MarketNotFound));
    assert_eq!(calculate_trade(true, Some(Market { status: 1, ..m }), 52 * D, 4 * D, D), Err(Revert::MarketNotOpen));
    assert_eq!(calculate_trade(true, Some(m), 52 * D, MIN_VARIANCE - 1, D), Err(Revert::VarianceTooSmall));
    assert_eq!(
        calculate_trade(true, Some(Market { b_backing: 0, ..m }), 52 * D, 4 * D, D),
        Err(Revert::MinVarianceFailed)
    );
    assert_eq!(
        calculate_trade(true, Some(Market { b_backing: K - 1, ..m }), 52 * D, 4 * D, D),
        Err(Revert::BackingConstraintViolated)
    );
    assert_eq!(calculate_trade(true, Some(m), 52 * D, 4 * D, u64::MAX), Err(Revert::TradeCostFailed));
}

#[test]
fn trade_then_mark_to_market() {
    let (market, position) = traded();
    assert_eq!(position.position_id, 0);
    assert_eq!(position.trader, TRADER);
    assert_eq!(position.market_id, 0);
    assert_eq!((position.from_mean, position.from_variance), (50 * D, 4 * D));
    assert_eq!((position.to_mean, position.to_variance), (52 * D, 4 * D));
    assert_eq!(position.size, D);
    assert_eq!(position.cost_basis, 12_560_783_609);
    assert_eq!(position.fees_paid, 37_569_641);
    assert_eq!(position.collateral_locked, 0);
    assert_eq!((position.is_open, position.claimed), (1, 0));
    assert_eq!((position.opened_at, position.closed_at, position.exit_value), (1, 0, 0));
    assert_eq!(position.realized_pnl, 0);
    assert_eq!((market.current_mean, market.current_variance), (52 * D, 4 * D));
    assert_eq!(market.total_volume, 12_560_783_609);
    assert_eq!(market.accumulated_fees, 37_569_641);
    assert_eq!(market.next_position_id, 1);
    assert_eq!(market.b_backing, 10 * D);
    // the position is worth the integral of its payoff against the belief it moved to
    assert_eq!(position_value_now(&position, Some(market)), Ok(78_470_477_426));
}

#[test]
fn trade_counts_positions_and_refunds_the_excess() {
    let request = TradeRequest { market_id: 9, new_mean: 52 * D, new_variance: 4 * D, size: D, max_cost: u64::MAX };
    let counters = TradeCounters { position_count: 17, trader_position_count: 4 };
    // 13 units are paid for a cost of 12.560783609
    let done = trade_distribution(true, Some(backed_market()), &ctx(TRADER, 13_000_000_000 * D, 5), &request, &counters)
        .unwrap();
    assert_eq!(done.position.position_id, 17);
    assert_eq!(done.position.market_id, 9);
    assert_eq!(done.trader_slot, 4);
    assert_eq!(done.counters, TradeCounters { position_count: 18, trader_position_count: 5 });
    assert_eq!(done.refund_wei, 439_216_391 * D);
    // a refund below the transfer unit is none
    let exact = trade_distribution(true, Some(backed_market()), &ctx(TRADER, 12_560_783_609 * D + 999_999, 5), &request, &counters)
        .unwrap();
    assert_eq!(exact.refund_wei, 0);
}

#[test]
fn trade_after_the_close_time_closes_the_market() {
    let request = TradeRequest { market_id: 0, new_mean: 52 * D, new_variance: 4 * D, size: D, max_cost: u64::MAX };
    let counters = TradeCounters { position_count: 0, trader_position_count: 0 };
    let m = backed_market();
    let refused = trade_distribution(true, Some(m), &ctx(TRADER, u64::MAX, CLOSE_TIME), &request, &counters).unwrap_err();
    assert_eq!(refused.reason, Revert::MarketClosed);
    assert_eq!(refused.closed_market, Some(Market { status: 1, ..m }));
    assert!(trade_distribution(true, Some(m), &ctx(TRADER, u64::MAX, CLOSE_TIME - 1), &request, &counters).is_ok());
}

#[test]
fn trade_refusals() {
    let request = TradeRequest { market_id: 0, new_mean: 52 * D, new_variance: 4 * D, size: D, max_cost: 12_560_783_609 };
    let counters = TradeCounters { position_count: 0, trader_position_count: 0 };
    let m = backed_market();
    let paid = ctx(TRADER, 12_560_783_609 * D, 5);
    let refused = |reason| Err(TradeRefused { reason, closed_market: None });
    assert_eq!(trade_distribution(true, None, &paid, &request, &counters), refused(Revert::MarketNotFound));
    assert_eq!(
        trade_distribution(true, Some(Market { status: 1, ..m }), &paid, &request, &counters),
        refused(Revert::MarketNotOpen)
    );
    assert_eq!(
        trade_distribution(true, Some(m), &paid, &TradeRequest { new_variance: 1, ..request }, &counters),
        refused(Revert::VarianceTooSmall)
    );
    assert_eq!(
        trade_distribution(true, Some(Market { b_backing: 0, ..m }), &paid, &request, &counters),
        refused(Revert::MinVarianceFailed)
    );
    assert_eq!(
        trade_distribution(true, Some(Market { b_backing: 1, ..m }), &paid, &request, &counters),
        refused(Revert::BackingConstraintViolated)
    );
    assert_eq!(
        trade_distribution(true, Some(m), &paid, &TradeRequest { size: u64::MAX, ..request }, &counters),
        refused(Revert::TradeCostFailed)
    );
    assert_eq!(
        trade_distribution(true, Some(m), &paid, &TradeRequest { max_cost: 12_560_783_608, ..request }, &counters),
        refused(Revert::CostExceedsMaximum)
    );
    assert_eq!(
        trade_distribution(true, Some(m), &ctx(TRADER, 12_560_783_609 * D - 1, 5), &request, &counters),
        refused(Revert::InsufficientPayment)
    );
    assert_eq!(
        trade_distribution(true, Some(m), &paid, &request, &TradeCounters { position_count: u64::MAX, ..counters }),
        refused(Revert::ArithmeticOverflow)
    );
    assert_eq!(
        trade_distribution(true, Some(Market { total_volume: u64::MAX, ..m }), &paid, &request, &counters),
        refused(Revert::ArithmeticOverflow)
    );
    assert!(trade_distribution(true, Some(m), &paid, &request, &counters).is_ok());
}

#[test]
fn resolve_and_claim() {
    let (market, position) = traded();
    assert_eq!(
        resolve_market(true, Some(market), &OWNER, &OWNER, CLOSE_TIME - 1, 52 * D, 4 * D),
        Err(Revert::MarketStillOpen)
    );
    let resolved = resolve_market(true, Some(market), &OWNER, &OWNER, CLOSE_TIME, 52 * D, 4 * D).unwrap();
    assert_eq!(resolved.status, 2);
    assert_eq!((resolved.resolution_mean, resolved.resolution_variance), (52 * D, 4 * D));
    assert_eq!(Market { status: 0, resolution_mean: 0, resolution_variance: 0, ..resolved }, market);
    let claimed = claim_winnings(true, Some(position), &TRADER, Some(resolved)).unwrap();
    assert_eq!(claimed.position.claimed, 1);
    assert_eq!(claimed.final_value, 78_470_477_426);
    assert_eq!(Position { claimed: 0, ..claimed.position }, position);
    assert_eq!(
        claim_winnings(true, Some(claimed.position), &TRADER, Some(resolved)),
        Err(Revert::AlreadyClaimed)
    );
    assert_eq!(Revert::AlreadyClaimed.reason(), "Already claimed");
}

#[test]
fn claim_refusals_and_values() {
    let (market, position) = traded();
    let resolved = resolve_market(true, Some(market), &OWNER, &OWNER, CLOSE_TIME, 50 * D, 4 * D).unwrap();
    assert_eq!(claim_winnings(true, None, &TRADER, Some(resolved)), Err(Revert::PositionNotFound));
    assert_eq!(claim_winnings(true, Some(position), &OTHER, Some(resolved)), Err(Revert::NotPositionOwner));
    assert_eq!(claim_winnings(true, Some(position), &TRADER, None), Err(Revert::MarketNotFound));
    assert_eq!(claim_winnings(true, Some(position), &TRADER, Some(market)), Err(Revert::MarketNotResolved));
    // resolved where the trade began, the position is worth nothing
    let lost = claim_winnings(true, Some(position), &TRADER, Some(resolved)).unwrap();
    assert_eq!((lost.final_value, lost.transfer_wei), (0, 0));
    // a closed position claims the value it was closed at
    let closed = Position { is_open: 0, exit_value: 5, ..position };
    let paid = claim_winnings(true, Some(closed), &TRADER, Some(resolved)).unwrap();
    assert_eq!((paid.final_value, paid.transfer_wei), (5, 5 * D));
    // a value that cannot be computed counts as nothing
    let broken = Position { to_variance: 1, ..position };
    assert_eq!(claim_winnings(true, Some(broken), &TRADER, Some(resolved)).unwrap().final_value, 0);
}

#[test]
fn resolve_refusals() {
    let m = backed_market();
    assert_eq!(resolve_market(true, None, &OWNER, &OWNER, CLOSE_TIME, 1, 4 * D), Err(Revert::MarketNotFound));
    assert_eq!(resolve_market(true, Some(m), &OTHER, &OWNER, CLOSE_TIME, 1, 4 * D), Err(Revert::NotAuthorized));
    assert_eq!(
        resolve_market(true, Some(Market { status: 2, ..m }), &OWNER, &OWNER, CLOSE_TIME, 1, 4 * D),
        Err(Revert::AlreadyResolved)
    );
    assert_eq!(
        resolve_market(true, Some(m), &OWNER, &OWNER, CLOSE_TIME, 1, MIN_VARIANCE - 1),
        Err(Revert::ResolutionVarianceTooSmall)
    );
    assert_eq!(
        resolve_market(true, Some(Market { b_backing: 0, ..m }), &OWNER, &OWNER, CLOSE_TIME, 1, 4 * D),
        Err(Revert::MinVarianceFailed)
    );
    // a closed market is resolved at any time
    assert!(resolve_market(true, Some(Market { status: 1, ..m }), &OWNER, &OWNER, 0, 1, 4 * D).is_ok());
}

#[test]
fn close_pre_resolution() {
    let (market, position) = traded();
    let closed = close_position(true, Some(position), &TRADER, Some(market), 7).unwrap();
    assert_eq!(closed.position.is_open, 0);
    assert_eq!(closed.position.closed_at, 7);
    assert_eq!(closed.position.exit_value, 78_470_477_426);
    assert_eq!(closed.value, 78_470_477_426);
    assert_eq!(closed.position.realized_pnl, 78_470_477_426 - 12_560_783_609);
    // the close is the payout: the position comes back claimed
    assert_eq!(closed.position.claimed, 1);
    assert_eq!(
        Position {
            is_open: 1,
            closed_at: 0,
            exit_value: 0,
            realized_pnl: 0,
            claimed: 0,
            ..closed.position
        },
        position
    );
    assert_eq!(
        close_position(true, Some(closed.position), &TRADER, Some(market), 8),
        Err(Revert::CloseAlreadyClosed)
    );
    assert_eq!(position_value_now(&closed.position, None), Ok(78_470_477_426));
}

#[test]
fn close_at_a_loss_has_a_negative_profit() {
    let (market, position) = traded();
    let back = Market { current_mean: 50 * D, ..market };
    let closed = close_position(true, Some(position), &TRADER, Some(back), 7).unwrap();
    assert_eq!(closed.value, 0);
    assert_eq!(closed.position.realized_pnl, -12_560_783_609);
    assert_eq!(closed.transfer_wei, 0);
}

#[test]
fn close_refusals() {
    let (market, position) = traded();
    assert_eq!(close_position(true, None, &TRADER, Some(market), 7), Err(Revert::ClosePositionNotFound));
    assert_eq!(close_position(true, Some(position), &OTHER, Some(market), 7), Err(Revert::CloseNotOwner));
    assert_eq!(close_position(true, Some(position), &TRADER, None, 7), Err(Revert::CloseMarketNotFound));
    assert_eq!(
        close_position(true, Some(position), &TRADER, Some(Market { current_variance: 1, ..market }), 7),
        Err(Revert::CloseValuation(CalcError::VarianceTooSmall))
    );
    assert_eq!(
        close_position(true, Some(position), &TRADER, Some(Market { k_norm: u64::MAX, ..market }), 7),
        Err(Revert::CloseValuation(CalcError::MulOverflow))
    );
    assert_eq!(
        close_position(true, Some(Position { cost_basis: u64::MAX, ..position }), &TRADER, Some(market), 7),
        Err(Revert::ClosePnlOverflow)
    );
}

#[test]
fn value_now_of_an_open_position() {
    let (market, position) = traded();
    assert_eq!(position_value_now(&position, None), Err(Revert::MarketNotFound));
    assert_eq!(position_value_now(&position, Some(Market { current_variance: 1, ..market })), Ok(0));
}

#[test]
fn transfers_are_in_whole_units_of_wei() {
    assert_eq!(transfer_wei(0), 0);
    assert_eq!(transfer_wei(1), D);
    assert_eq!(transfer_wei(18_446_744_073), 18_446_744_073 * D);
    // what has no 64-bit value in wei is not sent
    assert_eq!(transfer_wei(18_446_744_074), 0);
    assert_eq!(transfer_wei(78_470_477_426), 0);
}

#[test]
fn a_failed_transfer_reverts_only_under_its_policy() {
    assert_eq!(settle_transfer(TransferPolicy::RevertOnFailure, true), Ok(()));
    assert_eq!(settle_transfer(TransferPolicy::ProceedOnFailure, true), Ok(()));
    assert_eq!(settle_transfer(TransferPolicy::ProceedOnFailure, false), Ok(()));
    assert_eq!(settle_transfer(TransferPolicy::RevertOnFailure, false), Err(Revert::TransferFailed));
}

#[test]
fn value_locked_is_backing_and_fees() {
    let (market, _) = traded();
    assert_eq!(total_value_locked(&market), Ok(10 * D + 37_569_641));
    assert_eq!(
        total_value_locked(&Market { accumulated_fees: u64::MAX, ..market }),
        Err(Revert::ArithmeticOverflow)
    );
}

#[test]
fn shares_stay_with_the_holders() {
    // creator, then a second holder, then the creator leaves in part
    let created = create_market(true, &ctx(CREATOR, 10_000_000_000 * D, 1), &new_market(), 0).unwrap();
    let mut balances = [created.creator_shares, 0u64];
    assert_eq!(balances[0] + balances[1], created.market.total_lp_shares);
    let added = add_liquidity(true, Some(created.market), 5_000_000_000 * D, balances[1]).unwrap();
    balances[1] = added.new_balance;
    assert_eq!(balances[0] + balances[1], added.market.total_lp_shares);
    let thin = Market { k_norm: D, ..added.market };
    let removed = remove_liquidity(true, Some(thin), 2 * D, balances[0]).unwrap();
    balances[0] = removed.new_balance;
    assert_eq!(balances[0] + balances[1], removed.market.total_lp_shares);
    assert_eq!(balances, [8 * D, 5 * D]);
}

#[test]
fn liquidity_added_and_removed_brings_back_no_more() {
    let m = backed_market();
    assert_eq!(remove_liquidity(true, Some(m), D, D), Err(Revert::MinimumLiquidity));
    let added = add_liquidity(true, Some(m), 3_000_000_000 * D, 0).unwrap();
    let removed = remove_liquidity(true, Some(added.market), added.shares_minted, added.new_balance).unwrap();
    assert!(removed.backing_returned <= 3 * D);
    assert_eq!(removed.backing_returned, 2_999_999_990);
    let mut small = m;
    small.k_norm = 0;
    small.b_backing = 100;
    small.total_backing = 100;
    small.total_lp_shares = 100;
    let added = add_liquidity(true, Some(small), 50 * D, 0).unwrap();
    let removed = remove_liquidity(true, Some(added.market), 50, 50).unwrap();
    assert_eq!(removed.backing_returned, 49);
}

#[test]
fn every_refusal_has_its_reason() {
    assert_eq!(Revert::MarketClosed.reason(), "Market has closed");
    assert_eq!(Revert::InvalidParameters.reason(), "Invalid parameters");
    assert_eq!(Revert::TransferFailed.reason(), "Transfer failed");
    assert_eq!(Revert::NotAuthorized.reason(), "Not authorized");
    assert_eq!(Revert::MinimumLiquidity.reason(), "Would violate minimum liquidity");
    assert_eq!(Revert::CloseValuation(CalcError::VarianceTooSmall).reason(), "DEBUG7: Variance too small");
    assert_eq!(Revert::CloseValuation(CalcError::MulOverflow).reason(), "DEBUG9: Multiplication overflow");
    assert_eq!(Revert::CloseValuation(CalcError::DivByZero).reason(), "DEBUG10: Division by zero");
    assert_eq!(Revert::CloseValuation(CalcError::DivOverflow).reason(), "DEBUG11: Division overflow");
    assert_eq!(Revert::CloseValuation(CalcError::AddOverflow).reason(), "DEBUG12: Unknown calc error");
    assert_eq!(Revert::ArithmeticOverflow.reason(), "Contract panic");
}

#[test]
fn a_position_closed_before_resolution_cannot_be_claimed() {
    let (market, position) = traded();
    let closed = close_position(true, Some(position), &TRADER, Some(market), 7).unwrap().position;
    assert_eq!(closed.claimed, 1);
    let resolved = resolve_market(true, Some(market), &OWNER, &OWNER, CLOSE_TIME, 52 * D, 4 * D).unwrap();
    assert_eq!(claim_winnings(true, Some(closed), &TRADER, Some(resolved)), Err(Revert::AlreadyClaimed));
    assert_eq!(claim_winnings(true, Some(closed), &OTHER, Some(resolved)), Err(Revert::NotPositionOwner));
    // closing a market that has closed by time, but is not resolved, claims as well
    let timed_out = Market { status: 1, ..market };
    assert_eq!(close_position(true, Some(position), &TRADER, Some(timed_out), 7).unwrap().position.claimed, 1);
}

#[test]
fn a_close_on_a_resolved_market_leaves_the_claim_flag() {
    let (market, position) = traded();
    let resolved = resolve_market(true, Some(market), &OWNER, &OWNER, CLOSE_TIME, 52 * D, 4 * D).unwrap();
    let closed = close_position(true, Some(position), &TRADER, Some(resolved), 7).unwrap().position;
    assert_eq!((closed.is_open, closed.claimed), (0, 0));
    let already = Position { claimed: 1, ..position };
    let closed = close_position(true, Some(already), &TRADER, Some(resolved), 7).unwrap().position;
    assert_eq!(closed.claimed, 1);
}

#[test]
fn nothing_is_taken_up_before_initialize() {
    let (market, position) = traded();
    let request = TradeRequest { market_id: 0, new_mean: 52 * D, new_variance: 4 * D, size: D, max_cost: u64::MAX };
    let counters = TradeCounters { position_count: 0, trader_position_count: 0 };
    let paid = ctx(TRADER, 10_000_000_000 * D, 1);
    assert_eq!(create_market(false, &paid, &new_market(), 0), Err(Revert::NotInitialized));
    assert_eq!(add_liquidity(false, Some(market), D, 0), Err(Revert::NotInitialized));
    assert_eq!(remove_liquidity(false, Some(market), 1, 1), Err(Revert::NotInitialized));
    assert_eq!(calculate_trade(false, Some(market), 52 * D, 4 * D, D), Err(Revert::NotInitialized));
    assert_eq!(
        trade_distribution(false, Some(market), &paid, &request, &counters),
        Err(TradeRefused { reason: Revert::NotInitialized, closed_market: None })
    );
    assert_eq!(close_position(false, Some(position), &TRADER, Some(market), 7), Err(Revert::NotInitialized));
    assert_eq!(
        resolve_market(false, Some(market), &OWNER, &OWNER, CLOSE_TIME, 52 * D, 4 * D),
        Err(Revert::NotInitialized)
    );
    assert_eq!(claim_winnings(false, Some(position), &TRADER, Some(market)), Err(Revert::NotInitialized));
    // the refusal comes before every other one
    assert_eq!(add_liquidity(false, None, 0, 0), Err(Revert::NotInitialized));
    assert_eq!(Revert::NotInitialized.reason(), "Not initialized");
}
