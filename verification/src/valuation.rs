//! Position valuation: the expected payout of a position under a current
//! belief, by the composite trapezoidal rule.

use vstd::prelude::*;
use crate::fixed::{
    mul_fixed, mul_fixed_spec, sat_add, sat_sub, sqrt_fixed, sqrt_fixed_spec, CalcError, DECIMALS,
};
use crate::gaussian::ScaledNormal;
use crate::records::Position;

verus! {

/// Number of sub-intervals of the quadrature.
pub const INTEGRATION_STEPS: u64 = 20;

/// No node of the quadrature is larger in magnitude than this: `2^127 / DECIMALS`.
pub const NODE_BOUND: i128 = 170_141_183_460_469_231_731_687_303_715;

/// Division that rounds toward zero.
pub open spec fn trunc_div(a: int, d: int) -> int {
    if a >= 0 {
        a / d
    } else {
        -((-a) / d)
    }
}

/// `a / DECIMALS`, rounded toward zero.
fn trunc_div_scale(a: i128) -> (r: i128)
    ensures
        r == trunc_div(a as int, DECIMALS as int),
        -NODE_BOUND <= r <= NODE_BOUND,
{
    let scale: u128 = 1_000_000_000;
    assert(scale == DECIMALS);
    if a >= 0 {
        ((a as u128) / scale) as i128
    } else {
        let below: i128 = -(a + 1);
        let magnitude: u128 = below as u128 + 1;
        assert(magnitude == -(a as int));
        let quotient: u128 = magnitude / scale;
        assert(quotient <= NODE_BOUND);
        -(quotient as i128)
    }
}

/// `a / 2`, rounded toward zero.
fn trunc_halve(a: i128) -> (r: i128)
    requires
        -NODE_BOUND <= a <= NODE_BOUND,
    ensures
        r == trunc_div(a as int, 2),
        -NODE_BOUND <= r <= NODE_BOUND,
{
    if a >= 0 {
        a / 2
    } else {
        -((-a) / 2)
    }
}

pub open spec fn max3(a: u64, b: u64, c: u64) -> u64 {
    if a > b {
        if a > c {
            a
        } else {
            c
        }
    } else {
        if b > c {
            b
        } else {
            c
        }
    }
}

/// The middle one of three values.
pub open spec fn median3(a: u64, b: u64, c: u64) -> u64 {
    if a <= b {
        if b <= c {
            b
        } else if a <= c {
            c
        } else {
            a
        }
    } else {
        if a <= c {
            a
        } else if b <= c {
            c
        } else {
            b
        }
    }
}

/// The middle one of three values.
pub fn median_of_three(a: u64, b: u64, c: u64) -> (r: u64)
    ensures
        r == median3(a, b, c),
        r == a || r == b || r == c,
        (a <= r || b <= r) && (a <= r || c <= r) && (b <= r || c <= r),
        (r <= a || r <= b) && (r <= a || r <= c) && (r <= b || r <= c),
{
    if a <= b {
        if b <= c {
            b
        } else if a <= c {
            c
        } else {
            a
        }
    } else {
        if a <= c {
            a
        } else if b <= c {
            c
        } else {
            b
        }
    }
}

/// The three densities that a valuation compares.
#[derive(Clone, Copy, Debug, PartialEq, Eq, Structural)]
pub struct ValuationFrame {
    pub from: ScaledNormal,
    pub to: ScaledNormal,
    pub current: ScaledNormal,
}

/// The integrand at `x`: the payoff density `to - from` times the current
/// density, rescaled and rounded toward zero. It fails where a density
/// does, and where the product leaves 128 bits.
pub open spec fn integrand_spec(frame: ValuationFrame, x: u64) -> Result<int, CalcError> {
    match frame.from.at(x) {
        Err(e) => Err(e),
        Ok(f_from) => match frame.to.at(x) {
            Err(e) => Err(e),
            Ok(f_to) => match frame.current.at(x) {
                Err(e) => Err(e),
                Ok(f_current) => {
                    let product = (f_to - f_from) * f_current;
                    if product < i128::MIN || product > i128::MAX {
                        Err(CalcError::MulOverflow)
                    } else {
                        Ok(trunc_div(product, DECIMALS as int))
                    }
                },
            },
        },
    }
}

fn integrand(frame: &ValuationFrame, x: u64) -> (r: Result<i128, CalcError>)
    ensures
        r matches Ok(v) ==> integrand_spec(*frame, x) == Ok::<int, CalcError>(v as int)
            && -NODE_BOUND <= v <= NODE_BOUND,
        r matches Err(e) ==> integrand_spec(*frame, x) == Err::<int, CalcError>(e),
{
    let f_from = match frame.from.density_at(x) {
        Ok(v) => v,
        Err(e) => {
            return Err(e);
        },
    };
    let f_to = match frame.to.density_at(x) {
        Ok(v) => v,
        Err(e) => {
            return Err(e);
        },
    };
    let f_current = match frame.current.density_at(x) {
        Ok(v) => v,
        Err(e) => {
            return Err(e);
        },
    };
    let position_value: i128 = f_to as i128 - f_from as i128;
    match position_value.checked_mul(f_current as i128) {
        None => Err(CalcError::MulOverflow),
        Some(product) => Ok(trunc_div_scale(product)),
    }
}

/// The `i`-th of the 21 nodes of the window that starts at `lower` and is
/// `range` wide.
pub open spec fn node_x(lower: u64, range: u64, i: nat) -> u64 {
    sat_add(lower, ((range * i) as int / (INTEGRATION_STEPS as int)) as u64)
}

/// The contribution of node `i`: the integrand there, halved at both ends.
pub open spec fn node_spec(frame: ValuationFrame, lower: u64, range: u64, i: nat) -> Result<
    int,
    CalcError,
> {
    match integrand_spec(frame, node_x(lower, range, i)) {
        Err(e) => Err(e),
        Ok(v) => Ok(
            if i == 0 || i == INTEGRATION_STEPS {
                trunc_div(v, 2)
            } else {
                v
            },
        ),
    }
}

/// The sum of the first `n` nodes; the failure of the first node that fails.
pub open spec fn trapezoid_sum_spec(frame: ValuationFrame, lower: u64, range: u64, n: nat)
    -> Result<int, CalcError>
    decreases n,
{
    if n == 0 {
        Ok(0)
    } else {
        match trapezoid_sum_spec(frame, lower, range, (n - 1) as nat) {
            Err(e) => Err(e),
            Ok(s) => match node_spec(frame, lower, range, (n - 1) as nat) {
                Err(e) => Err(e),
                Ok(v) => Ok(s + v),
            },
        }
    }
}

proof fn lemma_trapezoid_fails(
    frame: ValuationFrame,
    lower: u64,
    range: u64,
    n: nat,
    m: nat,
    e: CalcError,
)
    requires
        n <= m,
        trapezoid_sum_spec(frame, lower, range, n) == Err::<int, CalcError>(e),
    ensures
        trapezoid_sum_spec(frame, lower, range, m) == Err::<int, CalcError>(e),
    decreases m - n,
{
    if n < m {
        lemma_trapezoid_fails(frame, lower, range, n + 1, m, e);
    }
}

fn trapezoid_sum(frame: &ValuationFrame, lower: u64, range: u64) -> (r: Result<i128, CalcError>)
    ensures
        r matches Ok(v) ==> trapezoid_sum_spec(*frame, lower, range, 21) == Ok::<int, CalcError>(
            v as int,
        ) && -21 * NODE_BOUND <= v <= 21 * NODE_BOUND,
        r matches Err(e) ==> trapezoid_sum_spec(*frame, lower, range, 21) == Err::<
            int,
            CalcError,
        >(e),
{
    let mut integral_sum: i128 = 0;
    let mut i: u64 = 0;
    while i <= INTEGRATION_STEPS
        invariant
            i <= INTEGRATION_STEPS + 1,
            trapezoid_sum_spec(*frame, lower, range, i as nat) == Ok::<int, CalcError>(
                integral_sum as int,
            ),
            -(i as int) * NODE_BOUND <= integral_sum <= i * NODE_BOUND,
        decreases INTEGRATION_STEPS + 1 - i,
    {
        assert(range * i <= 0xffff_ffff_ffff_ffff * 20) by (nonlinear_arith)
            requires
                range <= 0xffff_ffff_ffff_ffff,
                i <= 20,
        ;
        let step_offset = ((range as u128 * i as u128) / (INTEGRATION_STEPS as u128)) as u64;
        let x = lower.saturating_add(step_offset);
        let product = match integrand(frame, x) {
            Ok(v) => v,
            Err(e) => {
                proof {
                    assert(trapezoid_sum_spec(*frame, lower, range, (i + 1) as nat) == Err::<
                        int,
                        CalcError,
                    >(e));
                    lemma_trapezoid_fails(*frame, lower, range, (i + 1) as nat, 21, e);
                }
                return Err(e);
            },
        };
        let weighted = if i == 0 || i == INTEGRATION_STEPS {
            trunc_halve(product)
        } else {
            product
        };
        integral_sum = integral_sum + weighted;
        i = i + 1;
    }
    Ok(integral_sum)
}

/// The window of the quadrature, as its lower end and its width: three of
/// the largest standard deviation to either side of the middle mean.
pub open spec fn window_spec(position: Position, current_mean: u64, current_variance: u64)
    -> Result<(u64, u64), CalcError> {
    let max_std = max3(
        sqrt_fixed_spec(current_variance),
        sqrt_fixed_spec(position.from_variance),
        sqrt_fixed_spec(position.to_variance),
    );
    match mul_fixed_spec(max_std, (3 * DECIMALS) as u64) {
        Err(e) => Err(e),
        Ok(three_sigma) => {
            let center = median3(position.from_mean, current_mean, position.to_mean);
            let lower = sat_sub(center, three_sigma);
            let upper = sat_add(center, three_sigma);
            Ok((lower, (upper - lower) as u64))
        },
    }
}

fn integration_window(position: &Position, current_mean: u64, current_variance: u64) -> (r:
    Result<(u64, u64), CalcError>)
    ensures
        r == window_spec(*position, current_mean, current_variance),
{
    let current_std = sqrt_fixed(current_variance);
    let from_std = sqrt_fixed(position.from_variance);
    let to_std = sqrt_fixed(position.to_variance);
    let max_std = if current_std > from_std {
        if current_std > to_std {
            current_std
        } else {
            to_std
        }
    } else {
        if from_std > to_std {
            from_std
        } else {
            to_std
        }
    };
    let three_sigma = match mul_fixed(max_std, 3 * DECIMALS) {
        Ok(v) => v,
        Err(e) => {
            return Err(e);
        },
    };
    let center = median_of_three(position.from_mean, current_mean, position.to_mean);
    let lower_bound = center.saturating_sub(three_sigma);
    let upper_bound = center.saturating_add(three_sigma);
    Ok((lower_bound, upper_bound - lower_bound))
}

/// Width of one sub-interval, and one where the window is narrower than
/// the number of steps.
pub open spec fn step_width(range: u64) -> u64 {
    if range < INTEGRATION_STEPS {
        1
    } else {
        range / INTEGRATION_STEPS
    }
}

/// The payout for a node sum: the sum times the step width, rescaled; a
/// negative integral pays nothing, the rest is multiplied by the size.
pub open spec fn payout_spec(sum: int, range: u64, size: u64) -> Result<u64, CalcError> {
    let area = sum * step_width(range);
    if area < i128::MIN || area > i128::MAX {
        Err(CalcError::MulOverflow)
    } else {
        let integral = trunc_div(area, DECIMALS as int);
        if integral < 0 {
            Ok(0)
        } else if integral > u64::MAX {
            Err(CalcError::MulOverflow)
        } else {
            mul_fixed_spec(integral as u64, size)
        }
    }
}

fn payout(sum: i128, range: u64, size: u64) -> (r: Result<u64, CalcError>)
    ensures
        r == payout_spec(sum as int, range, size),
{
    let dx: u64 = if range < INTEGRATION_STEPS {
        1
    } else {
        range / INTEGRATION_STEPS
    };
    let area = match sum.checked_mul(dx as i128) {
        Some(v) => v,
        None => {
            return Err(CalcError::MulOverflow);
        },
    };
    let integral_result = trunc_div_scale(area);
    if integral_result < 0 {
        Ok(0)
    } else if integral_result > u64::MAX as i128 {
        Err(CalcError::MulOverflow)
    } else {
        mul_fixed(integral_result as u64, size)
    }
}

pub open spec fn position_value_spec(
    position: Position,
    current_mean: u64,
    current_variance: u64,
    k_norm: u64,
) -> Result<u64, CalcError> {
    match ScaledNormal::of_norm_spec(k_norm, current_mean, current_variance) {
        Err(e) => Err(e),
        Ok(current) => match ScaledNormal::of_norm_spec(
            k_norm,
            position.from_mean,
            position.from_variance,
        ) {
            Err(e) => Err(e),
            Ok(from) => match ScaledNormal::of_norm_spec(
                k_norm,
                position.to_mean,
                position.to_variance,
            ) {
                Err(e) => Err(e),
                Ok(to) => match window_spec(position, current_mean, current_variance) {
                    Err(e) => Err(e),
                    Ok((lower, range)) => if range == 0 {
                        Ok(position.cost_basis)
                    } else {
                        match trapezoid_sum_spec(
                            ValuationFrame { from, to, current },
                            lower,
                            range,
                            21,
                        ) {
                            Err(e) => Err(e),
                            Ok(sum) => payout_spec(sum, range, position.size),
                        }
                    },
                },
            },
        }
    }
}

/// Marks `position` to the belief `(current_mean, current_variance)` of a
/// market of norm `k_norm`: its size times the integral of its payoff
/// density against the current density, and never less than zero.
pub fn calculate_position_value(
    position: &Position,
    current_mean: u64,
    current_variance: u64,
    k_norm: u64,
) -> (r: Result<u64, CalcError>)
    ensures
        r == position_value_spec(*position, current_mean, current_variance, k_norm),
{
    let current = match ScaledNormal::of_norm(k_norm, current_mean, current_variance) {
        Ok(v) => v,
        Err(e) => {
            return Err(e);
        },
    };
    let from = match ScaledNormal::of_norm(k_norm, position.from_mean, position.from_variance) {
        Ok(v) => v,
        Err(e) => {
            return Err(e);
        },
    };
    let to = match ScaledNormal::of_norm(k_norm, position.to_mean, position.to_variance) {
        Ok(v) => v,
        Err(e) => {
            return Err(e);
        },
    };
    let (lower_bound, range) = match integration_window(position, current_mean, current_variance) {
        Ok(v) => v,
        Err(e) => {
            return Err(e);
        },
    };
    if range == 0 {
        return Ok(position.cost_basis);
    }
    let frame = ValuationFrame { from, to, current };
    match trapezoid_sum(&frame, lower_bound, range) {
        Err(e) => Err(e),
        Ok(sum) => payout(sum, range, position.size),
    }
}

} // verus!
