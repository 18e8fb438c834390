//! The lifecycle of markets and positions. Each operation is a function from
//! what the store holds and what the call brings to what is to be stored,
//! transferred and answered; reading and writing the store, and the transfer
//! itself, are left to the caller. Until `initialize` has run, every other
//! operation is refused.

use vstd::prelude::*;
use crate::bytes::same_bytes;
use crate::fixed::{
    div_fixed, div_fixed_spec, fixed_to_wei, fixed_to_wei_spec, mul_fixed, mul_fixed_spec,
    round_wei_for_transfer, round_wei_spec, sat_sub, value_or, wei_to_fixed, wei_to_fixed_spec,
    CalcError, MIN_TRANSFER_UNIT, MIN_VARIANCE,
};
use crate::gaussian::{
    calculate_f_max, calculate_lambda, calculate_min_variance, lambda_spec, min_variance_spec,
};
use crate::pricing::{base_cost_spec, calculate_trade_cost, fee_spec, trade_cost_spec};
use crate::records::{
    Address, Market, Position, MARKET_STATUS_CLOSED, MARKET_STATUS_OPEN, MARKET_STATUS_RESOLVED,
};
use crate::valuation::{calculate_position_value, position_value_spec};

verus! {

/// Why an operation is refused.
#[derive(Clone, Copy, Debug, PartialEq, Eq, Structural)]
pub enum Revert {
    AlreadyInitialized,
    NotInitialized,
    InvalidParameters,
    VarianceTooSmall,
    MustProvideBacking,
    BackingTooSmall,
    MinVarianceFailed,
    LambdaFailed,
    BackingConstraintViolated,
    MarketNotFound,
    MarketNotOpen,
    MarketClosed,
    TradeCostFailed,
    CostExceedsMaximum,
    InsufficientPayment,
    MustProvideLiquidity,
    LpRatioFailed,
    LpShareOverflow,
    VarianceConstraint,
    NoLpBalance,
    CannotBurnZero,
    InsufficientLpShares,
    RatioFailed,
    BackingOverflow,
    BackingPortionOverflow,
    MinimumLiquidity,
    WouldViolateVariance,
    TransferFailed,
    PositionNotFound,
    NotPositionOwner,
    AlreadyClaimed,
    MarketNotResolved,
    NotAuthorized,
    AlreadyResolved,
    MarketStillOpen,
    ResolutionVarianceTooSmall,
    CloseInvalidParameters,
    ClosePositionNotFound,
    CloseAlreadyClosed,
    CloseNotOwner,
    CloseMarketNotFound,
    CloseValuation(CalcError),
    ClosePnlOverflow,
    ArithmeticOverflow,
}

impl Revert {
    pub open spec fn reason_text(self) -> Seq<char> {
        match self {
            Revert::AlreadyInitialized => "Already initialized"@,
            Revert::NotInitialized => "Not initialized"@,
            Revert::InvalidParameters => "Invalid parameters"@,
            Revert::VarianceTooSmall => "Variance too small"@,
            Revert::MustProvideBacking => "Must provide initial backing"@,
            Revert::BackingTooSmall => "Backing too small"@,
            Revert::MinVarianceFailed => "Min variance calculation failed"@,
            Revert::LambdaFailed => "Lambda calculation failed"@,
            Revert::BackingConstraintViolated => "Backing constraint violated"@,
            Revert::MarketNotFound => "Market not found"@,
            Revert::MarketNotOpen => "Market not open"@,
            Revert::MarketClosed => "Market has closed"@,
            Revert::TradeCostFailed => "Trade cost calculation failed"@,
            Revert::CostExceedsMaximum => "Cost exceeds maximum"@,
            Revert::InsufficientPayment => "Insufficient payment"@,
            Revert::MustProvideLiquidity => "Must provide liquidity"@,
            Revert::LpRatioFailed => "LP ratio calculation failed"@,
            Revert::LpShareOverflow => "LP share calculation overflow"@,
            Revert::VarianceConstraint => "Market variance would violate constraint"@,
            Revert::NoLpBalance => "No LP balance"@,
            Revert::CannotBurnZero => "Cannot burn 0 shares"@,
            Revert::InsufficientLpShares => "Insufficient LP shares"@,
            Revert::RatioFailed => "Ratio calculation failed"@,
            Revert::BackingOverflow => "Backing calculation overflow"@,
            Revert::BackingPortionOverflow => "Backing portion overflow"@,
            Revert::MinimumLiquidity => "Would violate minimum liquidity"@,
            Revert::WouldViolateVariance => "Would violate variance constraint"@,
            Revert::TransferFailed => "Transfer failed"@,
            Revert::PositionNotFound => "Position not found"@,
            Revert::NotPositionOwner => "Not position owner"@,
            Revert::AlreadyClaimed => "Already claimed"@,
            Revert::MarketNotResolved => "Market not resolved"@,
            Revert::NotAuthorized => "Not authorized"@,
            Revert::AlreadyResolved => "Market already resolved"@,
            Revert::MarketStillOpen => "Market still open"@,
            Revert::ResolutionVarianceTooSmall => "Resolution variance too small"@,
            Revert::CloseInvalidParameters => "DEBUG1: Invalid parameters"@,
            Revert::ClosePositionNotFound => "DEBUG3: Position not found"@,
            Revert::CloseAlreadyClosed => "DEBUG4: Position already closed"@,
            Revert::CloseNotOwner => "DEBUG5: Not position owner"@,
            Revert::CloseMarketNotFound => "DEBUG6: Market not found"@,
            Revert::CloseValuation(e) => match e {
                CalcError::VarianceTooSmall => "DEBUG7: Variance too small"@,
                CalcError::MulOverflow => "DEBUG9: Multiplication overflow"@,
                CalcError::DivByZero => "DEBUG10: Division by zero"@,
                CalcError::DivOverflow => "DEBUG11: Division overflow"@,
                _ => "DEBUG12: Unknown calc error"@,
            },
            Revert::ClosePnlOverflow => "DEBUG13: P&L calculation overflow"@,
            Revert::ArithmeticOverflow => "Contract panic"@,
        }
    }

    /// The reason that the caller is given.
    pub fn reason(&self) -> (s: &'static str)
        ensures
            s@ == self.reason_text(),
    {
        match self {
            Revert::AlreadyInitialized => "Already initialized",
            Revert::NotInitialized => "Not initialized",
            Revert::InvalidParameters => "Invalid parameters",
            Revert::VarianceTooSmall => "Variance too small",
            Revert::MustProvideBacking => "Must provide initial backing",
            Revert::BackingTooSmall => "Backing too small",
            Revert::MinVarianceFailed => "Min variance calculation failed",
            Revert::LambdaFailed => "Lambda calculation failed",
            Revert::BackingConstraintViolated => "Backing constraint violated",
            Revert::MarketNotFound => "Market not found",
            Revert::MarketNotOpen => "Market not open",
            Revert::MarketClosed => "Market has closed",
            Revert::TradeCostFailed => "Trade cost calculation failed",
            Revert::CostExceedsMaximum => "Cost exceeds maximum",
            Revert::InsufficientPayment => "Insufficient payment",
            Revert::MustProvideLiquidity => "Must provide liquidity",
            Revert::LpRatioFailed => "LP ratio calculation failed",
            Revert::LpShareOverflow => "LP share calculation overflow",
            Revert::VarianceConstraint => "Market variance would violate constraint",
            Revert::NoLpBalance => "No LP balance",
            Revert::CannotBurnZero => "Cannot burn 0 shares",
            Revert::InsufficientLpShares => "Insufficient LP shares",
            Revert::RatioFailed => "Ratio calculation failed",
            Revert::BackingOverflow => "Backing calculation overflow",
            Revert::BackingPortionOverflow => "Backing portion overflow",
            Revert::MinimumLiquidity => "Would violate minimum liquidity",
            Revert::WouldViolateVariance => "Would violate variance constraint",
            Revert::TransferFailed => "Transfer failed",
            Revert::PositionNotFound => "Position not found",
            Revert::NotPositionOwner => "Not position owner",
            Revert::AlreadyClaimed => "Already claimed",
            Revert::MarketNotResolved => "Market not resolved",
            Revert::NotAuthorized => "Not authorized",
            Revert::AlreadyResolved => "Market already resolved",
            Revert::MarketStillOpen => "Market still open",
            Revert::ResolutionVarianceTooSmall => "Resolution variance too small",
            Revert::CloseInvalidParameters => "DEBUG1: Invalid parameters",
            Revert::ClosePositionNotFound => "DEBUG3: Position not found",
            Revert::CloseAlreadyClosed => "DEBUG4: Position already closed",
            Revert::CloseNotOwner => "DEBUG5: Not position owner",
            Revert::CloseMarketNotFound => "DEBUG6: Market not found",
            Revert::CloseValuation(e) => match e {
                CalcError::VarianceTooSmall => "DEBUG7: Variance too small",
                CalcError::MulOverflow => "DEBUG9: Multiplication overflow",
                CalcError::DivByZero => "DEBUG10: Division by zero",
                CalcError::DivOverflow => "DEBUG11: Division overflow",
                _ => "DEBUG12: Unknown calc error",
            },
            Revert::ClosePnlOverflow => "DEBUG13: P&L calculation overflow",
            Revert::ArithmeticOverflow => "Contract panic",
        }
    }
}

/// What the host says of a call: who makes it, what it carries, and when.
#[derive(Clone, Copy, Debug, PartialEq, Eq)]
pub struct CallContext {
    pub caller: Address,
    pub value_wei: u64,
    pub now: u64,
    pub block_number: u64,
}

/// What becomes of an operation whose transfer fails.
#[derive(Clone, Copy, Debug, PartialEq, Eq, Structural)]
pub enum TransferPolicy {
    /// The operation is undone.
    RevertOnFailure,
    /// The operation stands, and the funds stay in custody.
    ProceedOnFailure,
}

/// The wei that are sent for `amount`: the amount in wei, rounded down to
/// the transfer unit; nothing where the amount has no 64-bit value in wei.
pub open spec fn transfer_wei_spec(amount: u64) -> u64 {
    match fixed_to_wei_spec(amount) {
        Ok(wei) => round_wei_spec(wei),
        Err(_) => 0,
    }
}

/// The wei that are sent for `amount`; zero means that nothing is sent.
pub fn transfer_wei(amount: u64) -> (r: u64)
    ensures
        r == transfer_wei_spec(amount),
        r % MIN_TRANSFER_UNIT == 0,
{
    match fixed_to_wei(amount) {
        Ok(wei) => round_wei_for_transfer(wei),
        Err(_) => 0,
    }
}

/// Whether an operation stands once its transfer has been tried: it is
/// undone exactly when the transfer failed under `RevertOnFailure`.
pub fn settle_transfer(policy: TransferPolicy, succeeded: bool) -> (r: Result<(), Revert>)
    ensures
        r == if !succeeded && policy == TransferPolicy::RevertOnFailure {
            Err::<(), Revert>(Revert::TransferFailed)
        } else {
            Ok::<(), Revert>(())
        },
{
    if succeeded {
        Ok(())
    } else {
        match policy {
            TransferPolicy::RevertOnFailure => Err(Revert::TransferFailed),
            TransferPolicy::ProceedOnFailure => Ok(()),
        }
    }
}

// ---------------------------------------------------------------------------
// Invariants of a market
// ---------------------------------------------------------------------------

/// An open market's variance is at or above the floor.
pub open spec fn variance_floor_holds(m: Market) -> bool {
    m.status == MARKET_STATUS_OPEN ==> {
        &&& m.current_variance >= MIN_VARIANCE
        &&& m.current_variance >= value_or(min_variance_spec(m.k_norm, m.b_backing), 0)
    }
}

/// The backing covers the peak of the density, which is `K`.
pub open spec fn backing_covers_peak(m: Market) -> bool {
    m.k_norm <= m.b_backing
}

/// The backing that the density is held against is all the backing there is.
pub open spec fn backing_in_step(m: Market) -> bool {
    m.b_backing == m.total_backing
}

/// The market has been resolved.
pub open spec fn is_resolved(m: Market) -> bool {
    m.status == MARKET_STATUS_RESOLVED
}

/// `after` has the resolution that `before` has, if `before` is resolved.
pub open spec fn resolution_kept(before: Market, after: Market) -> bool {
    is_resolved(before) ==> after.status == before.status && after.resolution_mean
        == before.resolution_mean && after.resolution_variance == before.resolution_variance
}

// ---------------------------------------------------------------------------
// initialize
// ---------------------------------------------------------------------------

/// What `initialize` stores.
#[derive(Clone, Copy, Debug, PartialEq, Eq)]
pub struct Initialized {
    pub owner: Address,
    pub market_count: u64,
    pub position_count: u64,
    pub block_number: u64,
}

pub open spec fn initialize_spec(initialized: bool, caller: Address) -> Result<
    Initialized,
    Revert,
> {
    if initialized {
        Err(Revert::AlreadyInitialized)
    } else {
        Ok(Initialized { owner: caller, market_count: 0, position_count: 0, block_number: 1 })
    }
}

/// Records the caller as owner and sets the counters; refused once that
/// has been done.
pub fn initialize(initialized: bool, caller: Address) -> (r: Result<Initialized, Revert>)
    ensures
        r == initialize_spec(initialized, caller),
{
    if initialized {
        return Err(Revert::AlreadyInitialized);
    }
    Ok(Initialized { owner: caller, market_count: 0, position_count: 0, block_number: 1 })
}

// ---------------------------------------------------------------------------
// create_market
// ---------------------------------------------------------------------------

/// The numbers that a new market is made from.
#[derive(Clone, Copy, Debug, PartialEq, Eq, Structural)]
pub struct NewMarket {
    pub close_time: u64,
    pub k_norm: u64,
    pub initial_mean: u64,
    pub initial_variance: u64,
}

/// What `create_market` stores: the market under its id, the creator's
/// shares, and the new market count.
#[derive(Clone, Copy, Debug, PartialEq, Eq)]
pub struct MarketCreated {
    pub market_id: u64,
    pub market: Market,
    pub creator_shares: u64,
    pub market_count: u64,
}

/// The market that `create_market` makes for a backing of `b`.
pub open spec fn fresh_market(ctx: CallContext, new: NewMarket, b: u64) -> Market {
    Market {
        creator: ctx.caller,
        creation_time: ctx.now,
        close_time: new.close_time,
        k_norm: new.k_norm,
        b_backing: b,
        current_mean: new.initial_mean,
        current_variance: new.initial_variance,
        total_lp_shares: b,
        total_backing: b,
        accumulated_fees: 0,
        next_position_id: 0,
        total_volume: 0,
        status: MARKET_STATUS_OPEN,
        resolution_mean: 0,
        resolution_variance: 0,
    }
}

pub open spec fn create_market_spec(initialized: bool, ctx: CallContext, new: NewMarket, market_count: u64)
    -> Result<MarketCreated, Revert> {
    if !initialized {
        Err(Revert::NotInitialized)
    } else {
        let b = wei_to_fixed_spec(ctx.value_wei);
        if new.initial_variance < MIN_VARIANCE {
            Err(Revert::VarianceTooSmall)
        } else if ctx.value_wei == 0 {
            Err(Revert::MustProvideBacking)
        } else if b == 0 {
            Err(Revert::BackingTooSmall)
        } else if lambda_spec(new.k_norm, new.initial_variance) is Err {
            Err(Revert::LambdaFailed)
        } else if new.k_norm > b {
            Err(Revert::BackingConstraintViolated)
        } else if market_count == u64::MAX {
            Err(Revert::ArithmeticOverflow)
        } else {
            Ok(
                MarketCreated {
                    market_id: market_count,
                    market: fresh_market(ctx, new, b),
                    creator_shares: b,
                    market_count: (market_count + 1) as u64,
                },
            )
        }
    }
}

/// Opens a market backed by the value that the call carries. The variance
/// must be at the floor or above, the backing at least one unit and at
/// least `K`; the market takes the next id, and the creator all its shares.
pub fn create_market(initialized: bool, ctx: &CallContext, new: &NewMarket, market_count: u64) -> (r: Result<
    MarketCreated,
    Revert,
>)
    ensures
        r == create_market_spec(initialized, *ctx, *new, market_count),
        r matches Ok(created) ==> {
            &&& created.market_id == market_count
            &&& created.market_count == market_count + 1
            &&& created.creator_shares == created.market.total_lp_shares
            &&& variance_floor_holds(created.market)
            &&& backing_covers_peak(created.market)
            &&& backing_in_step(created.market)
        },
{
    if !initialized {
        return Err(Revert::NotInitialized);
    }
    if new.initial_variance < MIN_VARIANCE {
        return Err(Revert::VarianceTooSmall);
    }
    if ctx.value_wei == 0 {
        return Err(Revert::MustProvideBacking);
    }
    let b_backing = match wei_to_fixed(ctx.value_wei) {
        Ok(v) => v,
        Err(_) => {
            return Err(Revert::BackingTooSmall);
        },
    };
    if b_backing == 0 {
        return Err(Revert::BackingTooSmall);
    }
    let min_variance = match calculate_min_variance(new.k_norm, b_backing) {
        Ok(v) => v,
        Err(_) => {
            return Err(Revert::MinVarianceFailed);
        },
    };
    if new.initial_variance < min_variance {
        return Err(Revert::VarianceTooSmall);
    }
    match calculate_lambda(new.k_norm, new.initial_variance) {
        Ok(_) => {},
        Err(_) => {
            return Err(Revert::LambdaFailed);
        },
    }
    let f_max = match calculate_f_max(new.k_norm, new.initial_variance) {
        Ok(v) => v,
        Err(_) => {
            return Err(Revert::BackingConstraintViolated);
        },
    };
    if f_max > b_backing {
        return Err(Revert::BackingConstraintViolated);
    }
    let new_count = match market_count.checked_add(1) {
        Some(v) => v,
        None => {
            return Err(Revert::ArithmeticOverflow);
        },
    };
    let market = Market {
        creator: ctx.caller,
        creation_time: ctx.now,
        close_time: new.close_time,
        k_norm: new.k_norm,
        b_backing,
        current_mean: new.initial_mean,
        current_variance: new.initial_variance,
        total_lp_shares: b_backing,
        total_backing: b_backing,
        accumulated_fees: 0,
        next_position_id: 0,
        total_volume: 0,
        status: MARKET_STATUS_OPEN,
        resolution_mean: 0,
        resolution_variance: 0,
    };
    Ok(
        MarketCreated {
            market_id: market_count,
            market,
            creator_shares: b_backing,
            market_count: new_count,
        },
    )
}

// ---------------------------------------------------------------------------
// add_liquidity
// ---------------------------------------------------------------------------

/// What `add_liquidity` stores: the market, and the caller's new balance.
#[derive(Clone, Copy, Debug, PartialEq, Eq)]
pub struct LiquidityAdded {
    pub market: Market,
    pub shares_minted: u64,
    pub new_balance: u64,
}

/// The shares minted for `value`: `value` itself into an empty pool, else
/// `(value / total_backing) * total_lp_shares`.
pub open spec fn shares_to_mint_spec(m: Market, value: u64) -> Result<u64, Revert> {
    if m.total_backing == 0 {
        Ok(value)
    } else {
        match div_fixed_spec(value, m.total_backing) {
            Err(_) => Err(Revert::LpRatioFailed),
            Ok(ratio) => match mul_fixed_spec(ratio, m.total_lp_shares) {
                Err(_) => Err(Revert::LpShareOverflow),
                Ok(shares) => Ok(shares),
            },
        }
    }
}

pub open spec fn add_liquidity_spec(initialized: bool, market: Option<Market>, value_wei: u64, balance: u64)
    -> Result<LiquidityAdded, Revert> {
    if !initialized {
        Err(Revert::NotInitialized)
    } else {
        match market {
            None => Err(Revert::MarketNotFound),
            Some(m) => {
                let value = wei_to_fixed_spec(value_wei);
                if m.status != MARKET_STATUS_OPEN {
                    Err(Revert::MarketNotOpen)
                } else if value == 0 {
                    Err(Revert::MustProvideLiquidity)
                } else {
                    match shares_to_mint_spec(m, value) {
                        Err(e) => Err(e),
                        Ok(shares) => if m.total_backing + value > u64::MAX || m.total_lp_shares
                            + shares > u64::MAX {
                            Err(Revert::ArithmeticOverflow)
                        } else if m.current_variance < MIN_VARIANCE {
                            Err(Revert::VarianceConstraint)
                        } else if balance + shares > u64::MAX {
                            Err(Revert::ArithmeticOverflow)
                        } else {
                            Ok(
                                LiquidityAdded {
                                    market: Market {
                                        total_backing: (m.total_backing + value) as u64,
                                        total_lp_shares: (m.total_lp_shares + shares) as u64,
                                        b_backing: (m.total_backing + value) as u64,
                                        ..m
                                    },
                                    shares_minted: shares,
                                    new_balance: (balance + shares) as u64,
                                },
                            )
                        },
                    }
                }
            },
        }
    }
}

fn shares_to_mint(m: &Market, value: u64) -> (r: Result<u64, Revert>)
    ensures
        r == shares_to_mint_spec(*m, value),
{
    if m.total_backing == 0 {
        return Ok(value);
    }
    match div_fixed(value, m.total_backing) {
        Err(_) => Err(Revert::LpRatioFailed),
        Ok(ratio) => match mul_fixed(ratio, m.total_lp_shares) {
            Err(_) => Err(Revert::LpShareOverflow),
            Ok(shares) => Ok(shares),
        },
    }
}

/// Adds the value that the call carries to the backing of an open market
/// and mints shares in proportion; `balance` is what the caller held.
pub fn add_liquidity(initialized: bool, market: Option<Market>, value_wei: u64, balance: u64) -> (r: Result<
    LiquidityAdded,
    Revert,
>)
    ensures
        r == add_liquidity_spec(initialized, market, value_wei, balance),
        r matches Ok(added) ==> {
            let m = market->Some_0;
            &&& added.market.total_lp_shares - m.total_lp_shares == added.shares_minted
            &&& added.new_balance - balance == added.shares_minted
            &&& added.market.total_backing - m.total_backing == wei_to_fixed_spec(value_wei)
            &&& variance_floor_holds(added.market)
            &&& backing_in_step(added.market)
            &&& backing_covers_peak(m) && backing_in_step(m) ==> backing_covers_peak(
                added.market,
            )
            &&& resolution_kept(m, added.market)
        },
{
    if !initialized {
        return Err(Revert::NotInitialized);
    }
    let m = match market {
        Some(m) => m,
        None => {
            return Err(Revert::MarketNotFound);
        },
    };
    if m.status != MARKET_STATUS_OPEN {
        return Err(Revert::MarketNotOpen);
    }
    let value_fixed = match wei_to_fixed(value_wei) {
        Ok(v) => v,
        Err(_) => {
            return Err(Revert::MustProvideLiquidity);
        },
    };
    if value_fixed == 0 {
        return Err(Revert::MustProvideLiquidity);
    }
    let lp_shares_to_mint = match shares_to_mint(&m, value_fixed) {
        Ok(v) => v,
        Err(e) => {
            return Err(e);
        },
    };
    let total_backing = match m.total_backing.checked_add(value_fixed) {
        Some(v) => v,
        None => {
            return Err(Revert::ArithmeticOverflow);
        },
    };
    let total_lp_shares = match m.total_lp_shares.checked_add(lp_shares_to_mint) {
        Some(v) => v,
        None => {
            return Err(Revert::ArithmeticOverflow);
        },
    };
    let new_min_variance = match calculate_min_variance(m.k_norm, total_backing) {
        Ok(v) => v,
        Err(_) => {
            return Err(Revert::MinVarianceFailed);
        },
    };
    if m.current_variance < new_min_variance {
        return Err(Revert::VarianceConstraint);
    }
    let new_balance = match balance.checked_add(lp_shares_to_mint) {
        Some(v) => v,
        None => {
            return Err(Revert::ArithmeticOverflow);
        },
    };
    let mut updated = m;
    updated.total_backing = total_backing;
    updated.total_lp_shares = total_lp_shares;
    updated.b_backing = total_backing;
    Ok(LiquidityAdded { market: updated, shares_minted: lp_shares_to_mint, new_balance })
}

// ---------------------------------------------------------------------------
// remove_liquidity
// ---------------------------------------------------------------------------

/// What `remove_liquidity` stores and sends: the market, the caller's new
/// balance, and the amount that leaves, in fixed units and in wei.
#[derive(Clone, Copy, Debug, PartialEq, Eq)]
pub struct LiquidityRemoved {
    pub market: Market,
    pub new_balance: u64,
    pub backing_returned: u64,
    pub backing_portion: u64,
    pub transfer_wei: u64,
}

/// `(shares / total_lp_shares) * amount`.
pub open spec fn share_of_spec(shares: u64, total_lp_shares: u64, amount: u64) -> Result<
    u64,
    CalcError,
> {
    match div_fixed_spec(shares, total_lp_shares) {
        Err(e) => Err(e),
        Ok(ratio) => mul_fixed_spec(ratio, amount),
    }
}

pub open spec fn remove_liquidity_spec(initialized: bool, market: Option<Market>, shares: u64, balance: u64)
    -> Result<LiquidityRemoved, Revert> {
    if !initialized {
        Err(Revert::NotInitialized)
    } else {
        match market {
            None => Err(Revert::MarketNotFound),
            Some(m) => if balance == 0 {
                Err(Revert::NoLpBalance)
            } else if shares == 0 {
                Err(Revert::CannotBurnZero)
            } else if balance < shares {
                Err(Revert::InsufficientLpShares)
            } else if m.total_backing + m.accumulated_fees > u64::MAX {
                Err(Revert::ArithmeticOverflow)
            } else if div_fixed_spec(shares, m.total_lp_shares) is Err {
                Err(Revert::RatioFailed)
            } else {
                let ratio = div_fixed_spec(shares, m.total_lp_shares)->Ok_0;
                match mul_fixed_spec(ratio, (m.total_backing + m.accumulated_fees) as u64) {
                    Err(_) => Err(Revert::BackingOverflow),
                    Ok(returned) => match mul_fixed_spec(ratio, m.total_backing) {
                        Err(_) => Err(Revert::BackingPortionOverflow),
                        Ok(portion) => {
                            let remaining_backing = sat_sub(m.total_backing, portion);
                            let remaining_shares = sat_sub(m.total_lp_shares, shares);
                            if remaining_shares > 0 && remaining_backing < m.k_norm {
                                Err(Revert::MinimumLiquidity)
                            } else if remaining_backing > 0 && m.current_variance < MIN_VARIANCE {
                                Err(Revert::WouldViolateVariance)
                            } else {
                                Ok(
                                    LiquidityRemoved {
                                        market: Market {
                                            total_backing: remaining_backing,
                                            total_lp_shares: remaining_shares,
                                            b_backing: remaining_backing,
                                            accumulated_fees: sat_sub(
                                                m.accumulated_fees,
                                                sat_sub(returned, portion),
                                            ),
                                            ..m
                                        },
                                        new_balance: (balance - shares) as u64,
                                        backing_returned: returned,
                                        backing_portion: portion,
                                        transfer_wei: transfer_wei_spec(returned),
                                    },
                                )
                            }
                        },
                    },
                }
            },
        }
    }
}

/// Burns `shares` of the caller's `balance` and hands out their part of
/// the backing and of the fees. Refused where the caller holds too little,
/// and where shares would remain on a backing below `K`. The transfer is
/// to be made under `RevertOnFailure`.
pub fn remove_liquidity(initialized: bool, market: Option<Market>, shares: u64, balance: u64) -> (r: Result<
    LiquidityRemoved,
    Revert,
>)
    ensures
        r == remove_liquidity_spec(initialized, market, shares, balance),
        r matches Ok(removed) ==> {
            let m = market->Some_0;
            &&& balance - removed.new_balance == shares
            &&& removed.market.total_lp_shares == sat_sub(m.total_lp_shares, shares)
            &&& removed.market.total_backing + removed.backing_portion == m.total_backing
                || removed.market.total_backing == 0
            &&& removed.market.accumulated_fees <= m.accumulated_fees
            &&& removed.market.total_lp_shares > 0 ==> backing_covers_peak(removed.market)
            &&& backing_in_step(removed.market)
            &&& variance_floor_holds(m) ==> variance_floor_holds(removed.market)
            &&& resolution_kept(m, removed.market)
        },
{
    if !initialized {
        return Err(Revert::NotInitialized);
    }
    let m = match market {
        Some(m) => m,
        None => {
            return Err(Revert::MarketNotFound);
        },
    };
    if balance == 0 {
        return Err(Revert::NoLpBalance);
    }
    if shares == 0 {
        return Err(Revert::CannotBurnZero);
    }
    if balance < shares {
        return Err(Revert::InsufficientLpShares);
    }
    let total_assets = match m.total_backing.checked_add(m.accumulated_fees) {
        Some(v) => v,
        None => {
            return Err(Revert::ArithmeticOverflow);
        },
    };
    let ratio = match div_fixed(shares, m.total_lp_shares) {
        Ok(v) => v,
        Err(_) => {
            return Err(Revert::RatioFailed);
        },
    };
    let backing_to_return = match mul_fixed(ratio, total_assets) {
        Ok(v) => v,
        Err(_) => {
            return Err(Revert::BackingOverflow);
        },
    };
    let backing_portion = match mul_fixed(ratio, m.total_backing) {
        Ok(v) => v,
        Err(_) => {
            return Err(Revert::BackingPortionOverflow);
        },
    };
    let fee_portion = backing_to_return.saturating_sub(backing_portion);
    let remaining_backing = m.total_backing.saturating_sub(backing_portion);
    let remaining_shares = m.total_lp_shares.saturating_sub(shares);
    if remaining_shares > 0 && remaining_backing < m.k_norm {
        return Err(Revert::MinimumLiquidity);
    }
    let mut updated = m;
    updated.total_backing = remaining_backing;
    updated.total_lp_shares = remaining_shares;
    updated.b_backing = remaining_backing;
    updated.accumulated_fees = m.accumulated_fees.saturating_sub(fee_portion);
    if updated.total_backing > 0 {
        let new_min_variance = match calculate_min_variance(updated.k_norm, updated.b_backing) {
            Ok(v) => v,
            Err(_) => {
                return Err(Revert::MinVarianceFailed);
            },
        };
        if updated.current_variance < new_min_variance {
            return Err(Revert::WouldViolateVariance);
        }
    }
    Ok(
        LiquidityRemoved {
            market: updated,
            new_balance: balance - shares,
            backing_returned: backing_to_return,
            backing_portion,
            transfer_wei: transfer_wei(backing_to_return),
        },
    )
}

// ---------------------------------------------------------------------------
// calculate_trade
// ---------------------------------------------------------------------------

/// What a move of market `m` to `(new_mean, new_variance)` at `size` costs:
/// `(cost, fee, collateral)`. Refused below the variance floor, without
/// backing, and where the backing does not cover the peak.
pub open spec fn quote_spec(m: Market, new_mean: u64, new_variance: u64, size: u64) -> Result<
    (u64, u64, u64),
    Revert,
> {
    if new_variance < MIN_VARIANCE {
        Err(Revert::VarianceTooSmall)
    } else if min_variance_spec(m.k_norm, m.b_backing) is Err {
        Err(Revert::MinVarianceFailed)
    } else if m.k_norm > m.b_backing {
        Err(Revert::BackingConstraintViolated)
    } else {
        match trade_cost_spec(
            m.k_norm,
            m.current_mean,
            m.current_variance,
            new_mean,
            new_variance,
            size,
        ) {
            Err(_) => Err(Revert::TradeCostFailed),
            Ok(q) => Ok(q),
        }
    }
}

fn quote(m: &Market, new_mean: u64, new_variance: u64, size: u64) -> (r: Result<
    (u64, u64, u64),
    Revert,
>)
    ensures
        r == quote_spec(*m, new_mean, new_variance, size),
        r matches Ok((cost, fee, collateral)) ==> {
            &&& cost >= fee
            &&& Ok::<u64, CalcError>((cost - fee) as u64) == base_cost_spec(
                m.k_norm,
                m.current_mean,
                m.current_variance,
                new_mean,
                new_variance,
                size,
            )
            &&& fee == fee_spec((cost - fee) as u64)
        },
{
    if new_variance < MIN_VARIANCE {
        return Err(Revert::VarianceTooSmall);
    }
    let min_variance = match calculate_min_variance(m.k_norm, m.b_backing) {
        Ok(v) => v,
        Err(_) => {
            return Err(Revert::MinVarianceFailed);
        },
    };
    if new_variance < min_variance {
        return Err(Revert::VarianceTooSmall);
    }
    let new_f_max = match calculate_f_max(m.k_norm, new_variance) {
        Ok(v) => v,
        Err(_) => {
            return Err(Revert::BackingConstraintViolated);
        },
    };
    if new_f_max > m.b_backing {
        return Err(Revert::BackingConstraintViolated);
    }
    match calculate_trade_cost(
        m.k_norm,
        m.current_mean,
        m.current_variance,
        new_mean,
        new_variance,
        size,
    ) {
        Ok(q) => Ok(q),
        Err(_) => Err(Revert::TradeCostFailed),
    }
}

pub open spec fn calculate_trade_spec(
    initialized: bool,
    market: Option<Market>,
    new_mean: u64,
    new_variance: u64,
    size: u64,
) -> Result<(u64, u64, u64), Revert> {
    if !initialized {
        Err(Revert::NotInitialized)
    } else {
        match market {
            None => Err(Revert::MarketNotFound),
            Some(m) => if m.status != MARKET_STATUS_OPEN {
                Err(Revert::MarketNotOpen)
            } else {
                quote_spec(m, new_mean, new_variance, size)
            },
        }
    }
}

/// Prices a move of an open market without making it: `(cost, fee,
/// collateral)`.
pub fn calculate_trade(initialized: bool, market: Option<Market>, new_mean: u64, new_variance: u64, size: u64) -> (r:
    Result<(u64, u64, u64), Revert>)
    ensures
        r == calculate_trade_spec(initialized, market, new_mean, new_variance, size),
{
    if !initialized {
        return Err(Revert::NotInitialized);
    }
    let m = match market {
        Some(m) => m,
        None => {
            return Err(Revert::MarketNotFound);
        },
    };
    if m.status != MARKET_STATUS_OPEN {
        return Err(Revert::MarketNotOpen);
    }
    quote(&m, new_mean, new_variance, size)
}

// ---------------------------------------------------------------------------
// trade_distribution
// ---------------------------------------------------------------------------

/// A trade as it is asked for.
#[derive(Clone, Copy, Debug, PartialEq, Eq, Structural)]
pub struct TradeRequest {
    pub market_id: u64,
    pub new_mean: u64,
    pub new_variance: u64,
    pub size: u64,
    pub max_cost: u64,
}

/// The counters that a trade moves: the number of positions ever opened,
/// and the number that the caller has opened.
#[derive(Clone, Copy, Debug, PartialEq, Eq, Structural)]
pub struct TradeCounters {
    pub position_count: u64,
    pub trader_position_count: u64,
}

/// What a trade stores and sends: the position, the place it takes in the
/// trader's index, the market, the counters, and the refund.
#[derive(Clone, Copy, Debug, PartialEq, Eq)]
pub struct TradeExecuted {
    pub position: Position,
    pub trader_slot: u64,
    pub market: Market,
    pub counters: TradeCounters,
    pub refund_wei: u64,
}

/// Why a trade is refused, and the market to store all the same: a market
/// found past its close time is stored as closed.
#[derive(Clone, Copy, Debug, PartialEq, Eq)]
pub struct TradeRefused {
    pub reason: Revert,
    pub closed_market: Option<Market>,
}

/// `m`, closed.
pub open spec fn closed(m: Market) -> Market {
    Market { status: MARKET_STATUS_CLOSED, ..m }
}

/// The position that a trade opens.
pub open spec fn opened_position(
    ctx: CallContext,
    m: Market,
    request: TradeRequest,
    position_id: u64,
    quote: (u64, u64, u64),
) -> Position {
    Position {
        position_id,
        trader: ctx.caller,
        market_id: request.market_id,
        from_mean: m.current_mean,
        from_variance: m.current_variance,
        to_mean: request.new_mean,
        to_variance: request.new_variance,
        size: request.size,
        collateral_locked: quote.2,
        cost_basis: quote.0,
        is_open: 1,
        opened_at: ctx.block_number,
        closed_at: 0,
        exit_value: 0,
        fees_paid: quote.1,
        realized_pnl: 0,
        claimed: 0,
    }
}

/// The market after a trade: at the new belief, with the cost added to its
/// volume and the fee to its fees.
pub open spec fn traded_market(m: Market, request: TradeRequest, quote: (u64, u64, u64))
    -> Market {
    Market {
        current_mean: request.new_mean,
        current_variance: request.new_variance,
        next_position_id: (m.next_position_id + 1) as u64,
        total_volume: (m.total_volume + quote.0) as u64,
        accumulated_fees: (m.accumulated_fees + quote.1) as u64,
        ..m
    }
}

pub open spec fn refused(reason: Revert) -> Result<TradeExecuted, TradeRefused> {
    Err(TradeRefused { reason, closed_market: None })
}

pub open spec fn trade_distribution_spec(
    initialized: bool,
    market: Option<Market>,
    ctx: CallContext,
    request: TradeRequest,
    counters: TradeCounters,
) -> Result<TradeExecuted, TradeRefused> {
    if !initialized {
        refused(Revert::NotInitialized)
    } else {
        match market {
            None => refused(Revert::MarketNotFound),
            Some(m) => if m.status != MARKET_STATUS_OPEN {
                refused(Revert::MarketNotOpen)
            } else if ctx.now >= m.close_time {
                Err(TradeRefused { reason: Revert::MarketClosed, closed_market: Some(closed(m)) })
            } else {
                match quote_spec(m, request.new_mean, request.new_variance, request.size) {
                    Err(e) => refused(e),
                    Ok(q) => {
                        let paid = wei_to_fixed_spec(ctx.value_wei);
                        if q.0 > request.max_cost {
                            refused(Revert::CostExceedsMaximum)
                        } else if paid < q.0 {
                            refused(Revert::InsufficientPayment)
                        } else if counters.position_count == u64::MAX
                            || counters.trader_position_count == u64::MAX || m.next_position_id
                            == u64::MAX || m.total_volume + q.0 > u64::MAX || m.accumulated_fees + q.1
                            > u64::MAX {
                            refused(Revert::ArithmeticOverflow)
                        } else {
                            Ok(
                                TradeExecuted {
                                    position: opened_position(
                                        ctx,
                                        m,
                                        request,
                                        counters.position_count,
                                        q,
                                    ),
                                    trader_slot: counters.trader_position_count,
                                    market: traded_market(m, request, q),
                                    counters: TradeCounters {
                                        position_count: (counters.position_count + 1) as u64,
                                        trader_position_count: (counters.trader_position_count
                                            + 1) as u64,
                                    },
                                    refund_wei: transfer_wei_spec((paid - q.0) as u64),
                                },
                            )
                        }
                    },
                }
            },
        }
    }
}

/// Moves an open market to the belief asked for and opens the position
/// that records the move. The cost may not exceed `max_cost` nor what the
/// call carries; what the call carries beyond the cost is refunded, under
/// `ProceedOnFailure`. A market found at or past its close time is closed
/// instead.
pub fn trade_distribution(
    initialized: bool,
    market: Option<Market>,
    ctx: &CallContext,
    request: &TradeRequest,
    counters: &TradeCounters,
) -> (r: Result<TradeExecuted, TradeRefused>)
    ensures
        r == trade_distribution_spec(initialized, market, *ctx, *request, *counters),
        r matches Ok(done) ==> {
            let m = market->Some_0;
            &&& done.position.position_id == counters.position_count
            &&& done.counters.position_count == counters.position_count + 1
            &&& done.counters.trader_position_count == counters.trader_position_count + 1
            &&& done.position.cost_basis >= done.position.fees_paid
            &&& Ok::<u64, CalcError>((done.position.cost_basis - done.position.fees_paid) as u64)
                == base_cost_spec(
                m.k_norm,
                m.current_mean,
                m.current_variance,
                request.new_mean,
                request.new_variance,
                request.size,
            )
            &&& done.refund_wei == transfer_wei_spec(
                (wei_to_fixed_spec(ctx.value_wei) - done.position.cost_basis) as u64,
            )
            &&& variance_floor_holds(done.market)
            &&& backing_covers_peak(done.market)
            &&& backing_in_step(m) ==> backing_in_step(done.market)
            &&& resolution_kept(m, done.market)
        },
        r matches Err(no) ==> (no.closed_market matches Some(c) ==> {
            &&& no.reason == Revert::MarketClosed
            &&& c == closed(market->Some_0)
            &&& resolution_kept(market->Some_0, c)
        }),
{
    if !initialized {
        return Err(TradeRefused { reason: Revert::NotInitialized, closed_market: None });
    }
    let m = match market {
        Some(m) => m,
        None => {
            return Err(TradeRefused { reason: Revert::MarketNotFound, closed_market: None });
        },
    };
    if m.status != MARKET_STATUS_OPEN {
        return Err(TradeRefused { reason: Revert::MarketNotOpen, closed_market: None });
    }
    if ctx.now >= m.close_time {
        let mut closed_market = m;
        closed_market.status = MARKET_STATUS_CLOSED;
        return Err(
            TradeRefused { reason: Revert::MarketClosed, closed_market: Some(closed_market) },
        );
    }
    let (cost, fee, collateral_required) = match quote(
        &m,
        request.new_mean,
        request.new_variance,
        request.size,
    ) {
        Ok(v) => v,
        Err(e) => {
            return Err(TradeRefused { reason: e, closed_market: None });
        },
    };
    if cost > request.max_cost {
        return Err(TradeRefused { reason: Revert::CostExceedsMaximum, closed_market: None });
    }
    let value_fixed = match wei_to_fixed(ctx.value_wei) {
        Ok(v) => v,
        Err(_) => {
            return Err(TradeRefused { reason: Revert::InsufficientPayment, closed_market: None });
        },
    };
    if value_fixed < cost {
        return Err(TradeRefused { reason: Revert::InsufficientPayment, closed_market: None });
    }
    let overflow = TradeRefused { reason: Revert::ArithmeticOverflow, closed_market: None };
    let position_id = counters.position_count;
    let next_position_count = match position_id.checked_add(1) {
        Some(v) => v,
        None => {
            return Err(overflow);
        },
    };
    let position = Position {
        position_id,
        trader: ctx.caller,
        market_id: request.market_id,
        from_mean: m.current_mean,
        from_variance: m.current_variance,
        to_mean: request.new_mean,
        to_variance: request.new_variance,
        size: request.size,
        collateral_locked: collateral_required,
        cost_basis: cost,
        is_open: 1,
        opened_at: ctx.block_number,
        closed_at: 0,
        exit_value: 0,
        fees_paid: fee,
        realized_pnl: 0i64,
        claimed: 0,
    };
    let next_trader_count = match counters.trader_position_count.checked_add(1) {
        Some(v) => v,
        None => {
            return Err(overflow);
        },
    };
    let next_id = match m.next_position_id.checked_add(1) {
        Some(v) => v,
        None => {
            return Err(overflow);
        },
    };
    let total_volume = match m.total_volume.checked_add(cost) {
        Some(v) => v,
        None => {
            return Err(overflow);
        },
    };
    let accumulated_fees = match m.accumulated_fees.checked_add(fee) {
        Some(v) => v,
        None => {
            return Err(overflow);
        },
    };
    let mut updated = m;
    updated.current_mean = request.new_mean;
    updated.current_variance = request.new_variance;
    updated.next_position_id = next_id;
    updated.total_volume = total_volume;
    updated.accumulated_fees = accumulated_fees;
    Ok(
        TradeExecuted {
            position,
            trader_slot: counters.trader_position_count,
            market: updated,
            counters: TradeCounters {
                position_count: next_position_count,
                trader_position_count: next_trader_count,
            },
            refund_wei: transfer_wei(value_fixed - cost),
        },
    )
}

// ---------------------------------------------------------------------------
// close_position
// ---------------------------------------------------------------------------

/// What closing a position stores and sends.
#[derive(Clone, Copy, Debug, PartialEq, Eq)]
pub struct PositionClosed {
    pub position: Position,
    pub value: u64,
    pub transfer_wei: u64,
}

/// `value - cost_basis` as a signed number, where it has one of 64 bits; a
/// loss of `2^63` counts as none.
pub open spec fn realized_pnl_spec(value: u64, cost_basis: u64) -> Option<i64> {
    if value - cost_basis > i64::MAX || cost_basis - value > i64::MAX {
        None
    } else {
        Some((value - cost_basis) as i64)
    }
}

fn realized_pnl(value: u64, cost_basis: u64) -> (r: Option<i64>)
    ensures
        r == realized_pnl_spec(value, cost_basis),
{
    if value >= cost_basis {
        let gain = value - cost_basis;
        if gain > i64::MAX as u64 {
            None
        } else {
            Some(gain as i64)
        }
    } else {
        let loss = cost_basis - value;
        if loss > i64::MAX as u64 {
            None
        } else {
            Some(-(loss as i64))
        }
    }
}

/// The claim flag of a position once it is closed: a close before the
/// market is resolved is the position's one payout, so it claims the
/// position; a close on a resolved market leaves the flag as it was.
pub open spec fn claimed_after_close(p: Position, m: Market) -> u8 {
    if m.status != MARKET_STATUS_RESOLVED {
        1
    } else {
        p.claimed
    }
}

pub open spec fn close_position_spec(
    initialized: bool,
    position: Option<Position>,
    caller: Address,
    market: Option<Market>,
    block_number: u64,
) -> Result<PositionClosed, Revert> {
    if !initialized {
        Err(Revert::NotInitialized)
    } else {
        match position {
            None => Err(Revert::ClosePositionNotFound),
            Some(p) => if p.is_open == 0 {
                Err(Revert::CloseAlreadyClosed)
            } else if caller@ != p.trader@ {
                Err(Revert::CloseNotOwner)
            } else {
                match market {
                    None => Err(Revert::CloseMarketNotFound),
                    Some(m) => match position_value_spec(
                        p,
                        m.current_mean,
                        m.current_variance,
                        m.k_norm,
                    ) {
                        Err(e) => Err(Revert::CloseValuation(e)),
                        Ok(value) => match realized_pnl_spec(value, p.cost_basis) {
                            None => Err(Revert::ClosePnlOverflow),
                            Some(pnl) => Ok(
                                PositionClosed {
                                    position: Position {
                                        is_open: 0,
                                        closed_at: block_number,
                                        exit_value: value,
                                        realized_pnl: pnl,
                                        claimed: claimed_after_close(p, m),
                                        ..p
                                    },
                                    value,
                                    transfer_wei: transfer_wei_spec(value),
                                },
                            ),
                        },
                    },
                }
            },
        }
    }
}

/// Closes an open position of the caller at its value under the market's
/// current belief, and pays that value out under `ProceedOnFailure`. A
/// close before the market is resolved claims the position, so that it
/// cannot be paid again once the market is resolved.
pub fn close_position(
    initialized: bool,
    position: Option<Position>,
    caller: &Address,
    market: Option<Market>,
    block_number: u64,
) -> (r: Result<PositionClosed, Revert>)
    ensures
        r == close_position_spec(initialized, position, *caller, market, block_number),
        r matches Ok(done) ==> {
            let p = position->Some_0;
            &&& done.position.position_id == p.position_id
            &&& done.position.is_open == 0
            &&& done.position.exit_value == done.value
            &&& done.position.realized_pnl == done.value - p.cost_basis
            &&& done.position.cost_basis == p.cost_basis
            &&& done.position.claimed == claimed_after_close(p, market->Some_0)
            &&& market->Some_0.status != MARKET_STATUS_RESOLVED ==> done.position.claimed == 1
        },
{
    if !initialized {
        return Err(Revert::NotInitialized);
    }
    let p = match position {
        Some(p) => p,
        None => {
            return Err(Revert::ClosePositionNotFound);
        },
    };
    if p.is_open == 0 {
        return Err(Revert::CloseAlreadyClosed);
    }
    if !same_bytes(caller.as_slice(), p.trader.as_slice()) {
        return Err(Revert::CloseNotOwner);
    }
    let m = match market {
        Some(m) => m,
        None => {
            return Err(Revert::CloseMarketNotFound);
        },
    };
    let position_value = match calculate_position_value(
        &p,
        m.current_mean,
        m.current_variance,
        m.k_norm,
    ) {
        Ok(v) => v,
        Err(e) => {
            return Err(Revert::CloseValuation(e));
        },
    };
    let pnl = match realized_pnl(position_value, p.cost_basis) {
        Some(v) => v,
        None => {
            return Err(Revert::ClosePnlOverflow);
        },
    };
    let mut updated = p;
    updated.is_open = 0;
    updated.closed_at = block_number;
    updated.exit_value = position_value;
    updated.realized_pnl = pnl;
    if m.status != MARKET_STATUS_RESOLVED {
        updated.claimed = 1;
    }
    Ok(
        PositionClosed {
            position: updated,
            value: position_value,
            transfer_wei: transfer_wei(position_value),
        },
    )
}

// ---------------------------------------------------------------------------
// resolve_market
// ---------------------------------------------------------------------------

pub open spec fn resolve_market_spec(
    initialized: bool,
    market: Option<Market>,
    caller: Address,
    owner: Address,
    now: u64,
    final_mean: u64,
    final_variance: u64,
) -> Result<Market, Revert> {
    if !initialized {
        Err(Revert::NotInitialized)
    } else {
        match market {
            None => Err(Revert::MarketNotFound),
            Some(m) => if caller@ != owner@ {
                Err(Revert::NotAuthorized)
            } else if m.status == MARKET_STATUS_RESOLVED {
                Err(Revert::AlreadyResolved)
            } else if m.status == MARKET_STATUS_OPEN && now < m.close_time {
                Err(Revert::MarketStillOpen)
            } else if final_variance < MIN_VARIANCE {
                Err(Revert::ResolutionVarianceTooSmall)
            } else if min_variance_spec(m.k_norm, m.b_backing) is Err {
                Err(Revert::MinVarianceFailed)
            } else {
                Ok(
                    Market {
                        status: MARKET_STATUS_RESOLVED,
                        resolution_mean: final_mean,
                        resolution_variance: final_variance,
                        ..m
                    },
                )
            },
        }
    }
}

/// Resolves a market at `(final_mean, final_variance)`. Only the owner may,
/// only once, and an open market only from its close time on.
pub fn resolve_market(
    initialized: bool,
    market: Option<Market>,
    caller: &Address,
    owner: &Address,
    now: u64,
    final_mean: u64,
    final_variance: u64,
) -> (r: Result<Market, Revert>)
    ensures
        r == resolve_market_spec(initialized, market, *caller, *owner, now, final_mean, final_variance),
        r matches Ok(resolved) ==> {
            &&& is_resolved(resolved)
            &&& !is_resolved(market->Some_0)
            &&& resolved.resolution_mean == final_mean
            &&& resolved.resolution_variance == final_variance
            &&& variance_floor_holds(resolved)
            &&& backing_covers_peak(market->Some_0) ==> backing_covers_peak(resolved)
        },
        market matches Some(m) && is_resolved(m) ==> r is Err,
{
    if !initialized {
        return Err(Revert::NotInitialized);
    }
    let m = match market {
        Some(m) => m,
        None => {
            return Err(Revert::MarketNotFound);
        },
    };
    if !same_bytes(caller.as_slice(), owner.as_slice()) {
        return Err(Revert::NotAuthorized);
    }
    if m.status == MARKET_STATUS_RESOLVED {
        return Err(Revert::AlreadyResolved);
    }
    if m.status == MARKET_STATUS_OPEN && now < m.close_time {
        return Err(Revert::MarketStillOpen);
    }
    if final_variance < MIN_VARIANCE {
        return Err(Revert::ResolutionVarianceTooSmall);
    }
    let min_variance = match calculate_min_variance(m.k_norm, m.b_backing) {
        Ok(v) => v,
        Err(_) => {
            return Err(Revert::MinVarianceFailed);
        },
    };
    if final_variance < min_variance {
        return Err(Revert::ResolutionVarianceTooSmall);
    }
    let mut updated = m;
    updated.status = MARKET_STATUS_RESOLVED;
    updated.resolution_mean = final_mean;
    updated.resolution_variance = final_variance;
    Ok(updated)
}

// ---------------------------------------------------------------------------
// claim_winnings
// ---------------------------------------------------------------------------

/// What a claim stores and sends.
#[derive(Clone, Copy, Debug, PartialEq, Eq)]
pub struct WinningsClaimed {
    pub position: Position,
    pub final_value: u64,
    pub transfer_wei: u64,
}

/// What a position is worth once its market `m` is resolved: its value
/// under the resolution while it is open (nothing where that cannot be
/// computed), else the value it was closed at.
pub open spec fn final_value_spec(p: Position, m: Market) -> u64 {
    if p.is_open == 1 {
        value_or(position_value_spec(p, m.resolution_mean, m.resolution_variance, m.k_norm), 0)
    } else {
        p.exit_value
    }
}

pub open spec fn claim_winnings_spec(
    initialized: bool,
    position: Option<Position>,
    caller: Address,
    market: Option<Market>,
) -> Result<WinningsClaimed, Revert> {
    if !initialized {
        Err(Revert::NotInitialized)
    } else {
        match position {
            None => Err(Revert::PositionNotFound),
            Some(p) => if caller@ != p.trader@ {
                Err(Revert::NotPositionOwner)
            } else if p.claimed == 1 {
                Err(Revert::AlreadyClaimed)
            } else {
                match market {
                    None => Err(Revert::MarketNotFound),
                    Some(m) => if m.status != MARKET_STATUS_RESOLVED {
                        Err(Revert::MarketNotResolved)
                    } else {
                        Ok(
                            WinningsClaimed {
                                position: Position { claimed: 1, ..p },
                                final_value: final_value_spec(p, m),
                                transfer_wei: transfer_wei_spec(final_value_spec(p, m)),
                            },
                        )
                    },
                }
            },
        }
    }
}

/// Pays out a position of the caller on a resolved market, once. The
/// transfer is to be made under `RevertOnFailure`.
pub fn claim_winnings(initialized: bool, position: Option<Position>, caller: &Address, market: Option<Market>) -> (r:
    Result<WinningsClaimed, Revert>)
    ensures
        r == claim_winnings_spec(initialized, position, *caller, market),
        r matches Ok(done) ==> {
            let p = position->Some_0;
            &&& p.claimed != 1
            &&& done.position.claimed == 1
            &&& done.position.position_id == p.position_id
            &&& is_resolved(market->Some_0)
        },
        position matches Some(p) && p.claimed == 1 ==> r is Err,
{
    if !initialized {
        return Err(Revert::NotInitialized);
    }
    let p = match position {
        Some(p) => p,
        None => {
            return Err(Revert::PositionNotFound);
        },
    };
    if !same_bytes(caller.as_slice(), p.trader.as_slice()) {
        return Err(Revert::NotPositionOwner);
    }
    if p.claimed == 1 {
        return Err(Revert::AlreadyClaimed);
    }
    let m = match market {
        Some(m) => m,
        None => {
            return Err(Revert::MarketNotFound);
        },
    };
    if m.status != MARKET_STATUS_RESOLVED {
        return Err(Revert::MarketNotResolved);
    }
    let final_value = if p.is_open == 1 {
        match calculate_position_value(&p, m.resolution_mean, m.resolution_variance, m.k_norm) {
            Ok(v) => v,
            Err(_) => 0,
        }
    } else {
        p.exit_value
    };
    let mut updated = p;
    updated.claimed = 1;
    Ok(WinningsClaimed { position: updated, final_value, transfer_wei: transfer_wei(final_value) })
}

// ---------------------------------------------------------------------------
// Reading
// ---------------------------------------------------------------------------

/// What a position is worth now: the value it was closed at, or its value
/// under the belief of its market `market`, and nothing where that cannot
/// be computed.
pub open spec fn position_value_now_spec(position: Position, market: Option<Market>) -> Result<
    u64,
    Revert,
> {
    if position.is_open == 0 {
        Ok(position.exit_value)
    } else {
        match market {
            None => Err(Revert::MarketNotFound),
            Some(m) => Ok(
                value_or(
                    position_value_spec(position, m.current_mean, m.current_variance, m.k_norm),
                    0,
                ),
            ),
        }
    }
}

/// What a position is worth now.
pub fn position_value_now(position: &Position, market: Option<Market>) -> (r: Result<u64, Revert>)
    ensures
        r == position_value_now_spec(*position, market),
{
    if position.is_open == 0 {
        return Ok(position.exit_value);
    }
    let m = match market {
        Some(m) => m,
        None => {
            return Err(Revert::MarketNotFound);
        },
    };
    match calculate_position_value(position, m.current_mean, m.current_variance, m.k_norm) {
        Ok(v) => Ok(v),
        Err(_) => Ok(0),
    }
}

/// The value locked in a market: its backing and its fees.
pub fn total_value_locked(market: &Market) -> (r: Result<u64, Revert>)
    ensures
        r == if market.total_backing + market.accumulated_fees > u64::MAX {
            Err::<u64, Revert>(Revert::ArithmeticOverflow)
        } else {
            Ok::<u64, Revert>((market.total_backing + market.accumulated_fees) as u64)
        },
{
    match market.total_backing.checked_add(market.accumulated_fees) {
        Some(v) => Ok(v),
        None => Err(Revert::ArithmeticOverflow),
    }
}

} // verus!
