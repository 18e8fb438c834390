//! Trade pricing: what a move from one scaled Gaussian to another costs, the
//! fee on it, and the collateral that covers its peak deficit.

use vstd::prelude::*;
use crate::fixed::{
    mul_fixed, mul_fixed_spec, sat_add, sat_sub, sqrt_fixed, sqrt_fixed_spec, CalcError,
};
use crate::gaussian::{
    calculate_l2_norm_difference, l2_norm_difference_spec, lemma_l2_distance_symmetric,
    ScaledNormal,
};

verus! {

/// Fee in thousandths of the base cost: thirty basis points.
pub const FEE_PER_MILLE: u64 = 3;

/// Number of points at which the deficit is sampled when the variances differ.
pub const CANDIDATE_POINTS: usize = 7;

pub open spec fn midpoint_spec(a: u64, b: u64) -> u64 {
    ((a + b) / 2) as u64
}

/// The point halfway between `a` and `b`, rounded down.
pub fn midpoint(a: u64, b: u64) -> (r: u64)
    ensures
        r == midpoint_spec(a, b),
{
    ((a as u128 + b as u128) / 2) as u64
}

/// How far the new density `to` exceeds the old density `from` at `x`, and
/// zero where it does not.
pub open spec fn deficit_at_spec(from: ScaledNormal, to: ScaledNormal, x: u64) -> Result<
    u64,
    CalcError,
> {
    match from.at(x) {
        Err(e) => Err(e),
        Ok(g) => match to.at(x) {
            Err(e) => Err(e),
            Ok(f) => Ok(sat_sub(f, g)),
        },
    }
}

/// How far `to` exceeds `from` at `x`, and zero where it does not.
pub fn deficit_at(from: &ScaledNormal, to: &ScaledNormal, x: u64) -> (r: Result<u64, CalcError>)
    ensures
        r == deficit_at_spec(*from, *to, x),
{
    let g_value = match from.density_at(x) {
        Ok(v) => v,
        Err(e) => {
            return Err(e);
        },
    };
    let f_value = match to.density_at(x) {
        Ok(v) => v,
        Err(e) => {
            return Err(e);
        },
    };
    Ok(f_value.saturating_sub(g_value))
}

/// Both means, their midpoint, and each mean one standard deviation to
/// either side.
pub open spec fn candidate_points(from: ScaledNormal, to: ScaledNormal) -> Seq<u64> {
    let sigma_from = sqrt_fixed_spec(from.variance);
    let sigma_to = sqrt_fixed_spec(to.variance);
    seq![
        from.mean,
        to.mean,
        midpoint_spec(from.mean, to.mean),
        sat_sub(from.mean, sigma_from),
        sat_add(from.mean, sigma_from),
        sat_sub(to.mean, sigma_to),
        sat_add(to.mean, sigma_to),
    ]
}

/// The largest deficit over the first `n` of `points`; the failure of the
/// first point at which a density cannot be computed.
pub open spec fn max_deficit_spec(from: ScaledNormal, to: ScaledNormal, points: Seq<u64>, n: nat)
    -> Result<u64, CalcError>
    decreases n,
{
    if n == 0 {
        Ok(0)
    } else {
        match max_deficit_spec(from, to, points, (n - 1) as nat) {
            Err(e) => Err(e),
            Ok(m) => match deficit_at_spec(from, to, points[n - 1]) {
                Err(e) => Err(e),
                Ok(d) => Ok(
                    if d > m {
                        d
                    } else {
                        m
                    },
                ),
            },
        }
    }
}

/// The peak deficit of the move: at the midpoint where the variances agree,
/// else the largest over the candidate points.
pub open spec fn peak_deficit_spec(from: ScaledNormal, to: ScaledNormal) -> Result<u64, CalcError> {
    if from.variance == to.variance {
        deficit_at_spec(from, to, midpoint_spec(from.mean, to.mean))
    } else {
        max_deficit_spec(from, to, candidate_points(from, to), CANDIDATE_POINTS as nat)
    }
}

/// The peak deficit of the move from `from` to `to`.
pub fn peak_deficit(from: &ScaledNormal, to: &ScaledNormal) -> (r: Result<u64, CalcError>)
    ensures
        r == peak_deficit_spec(*from, *to),
{
    if from.variance == to.variance {
        return deficit_at(from, to, midpoint(from.mean, to.mean));
    }
    let sigma_from = sqrt_fixed(from.variance);
    let sigma_to = sqrt_fixed(to.variance);
    let points: [u64; 7] = [
        from.mean,
        to.mean,
        midpoint(from.mean, to.mean),
        from.mean.saturating_sub(sigma_from),
        from.mean.saturating_add(sigma_from),
        to.mean.saturating_sub(sigma_to),
        to.mean.saturating_add(sigma_to),
    ];
    assert(points@ =~= candidate_points(*from, *to));
    let mut max_deficit: u64 = 0;
    let mut i: usize = 0;
    while i < CANDIDATE_POINTS
        invariant
            i <= CANDIDATE_POINTS,
            from.variance != to.variance,
            points@ == candidate_points(*from, *to),
            max_deficit_spec(*from, *to, points@, i as nat) == Ok::<u64, CalcError>(max_deficit),
        decreases CANDIDATE_POINTS - i,
    {
        let deficit = match deficit_at(from, to, points[i]) {
            Ok(v) => v,
            Err(e) => {
                proof {
                    assert(max_deficit_spec(*from, *to, points@, (i + 1) as nat) == Err::<
                        u64,
                        CalcError,
                    >(e));
                    lemma_max_deficit_fails(*from, *to, points@, (i + 1) as nat, 7, e);
                }
                return Err(e);
            },
        };
        if deficit > max_deficit {
            max_deficit = deficit;
        }
        i += 1;
    }
    Ok(max_deficit)
}

/// Once a point has failed, the scan over more points fails the same way.
proof fn lemma_max_deficit_fails(
    from: ScaledNormal,
    to: ScaledNormal,
    points: Seq<u64>,
    n: nat,
    m: nat,
    e: CalcError,
)
    requires
        n <= m,
        max_deficit_spec(from, to, points, n) == Err::<u64, CalcError>(e),
    ensures
        max_deficit_spec(from, to, points, m) == Err::<u64, CalcError>(e),
    decreases m - n,
{
    if n < m {
        lemma_max_deficit_fails(from, to, points, n + 1, m, e);
    }
}

pub open spec fn collateral_spec(
    k_norm: u64,
    from_mean: u64,
    from_variance: u64,
    to_mean: u64,
    to_variance: u64,
    size: u64,
) -> Result<u64, CalcError> {
    match ScaledNormal::of_norm_spec(k_norm, from_mean, from_variance) {
        Err(e) => Err(e),
        Ok(from) => match ScaledNormal::of_norm_spec(k_norm, to_mean, to_variance) {
            Err(e) => Err(e),
            Ok(to) => match peak_deficit_spec(from, to) {
                Err(e) => Err(e),
                Ok(deficit) => mul_fixed_spec(deficit, size),
            },
        },
    }
}

/// The collateral of a trade: its peak deficit times its size.
pub fn calculate_collateral_requirement(
    k_norm: u64,
    from_mean: u64,
    from_variance: u64,
    to_mean: u64,
    to_variance: u64,
    size: u64,
) -> (r: Result<u64, CalcError>)
    ensures
        r == collateral_spec(k_norm, from_mean, from_variance, to_mean, to_variance, size),
{
    let from = match ScaledNormal::of_norm(k_norm, from_mean, from_variance) {
        Ok(v) => v,
        Err(e) => {
            return Err(e);
        },
    };
    let to = match ScaledNormal::of_norm(k_norm, to_mean, to_variance) {
        Ok(v) => v,
        Err(e) => {
            return Err(e);
        },
    };
    match peak_deficit(&from, &to) {
        Err(e) => Err(e),
        Ok(deficit) => mul_fixed(deficit, size),
    }
}

/// The L2 distance between the market's density before and after the move.
pub open spec fn move_distance_spec(
    k_norm: u64,
    from_mean: u64,
    from_variance: u64,
    to_mean: u64,
    to_variance: u64,
) -> Result<u64, CalcError> {
    match ScaledNormal::of_norm_spec(k_norm, from_mean, from_variance) {
        Err(e) => Err(e),
        Ok(from) => match ScaledNormal::of_norm_spec(k_norm, to_mean, to_variance) {
            Err(e) => Err(e),
            Ok(to) => l2_norm_difference_spec(
                from.mean,
                from.variance,
                from.lambda,
                to.mean,
                to.variance,
                to.lambda,
            ),
        },
    }
}

/// The base cost of a trade: the distance of the move times its size.
pub open spec fn base_cost_spec(
    k_norm: u64,
    from_mean: u64,
    from_variance: u64,
    to_mean: u64,
    to_variance: u64,
    size: u64,
) -> Result<u64, CalcError> {
    match move_distance_spec(k_norm, from_mean, from_variance, to_mean, to_variance) {
        Err(e) => Err(e),
        Ok(distance) => mul_fixed_spec(distance, size),
    }
}

/// Thirty basis points of `base`, rounded down.
pub open spec fn fee_spec(base: u64) -> u64 {
    (base * FEE_PER_MILLE / 1000) as u64
}

/// `(cost, fee, collateral)` of a trade, with `cost = base + fee`.
pub open spec fn trade_cost_spec(
    k_norm: u64,
    from_mean: u64,
    from_variance: u64,
    to_mean: u64,
    to_variance: u64,
    size: u64,
) -> Result<(u64, u64, u64), CalcError> {
    match base_cost_spec(k_norm, from_mean, from_variance, to_mean, to_variance, size) {
        Err(e) => Err(e),
        Ok(base) => match collateral_spec(
            k_norm,
            from_mean,
            from_variance,
            to_mean,
            to_variance,
            size,
        ) {
            Err(e) => Err(e),
            Ok(collateral) => if base + fee_spec(base) > u64::MAX {
                Err(CalcError::AddOverflow)
            } else {
                Ok(((base + fee_spec(base)) as u64, fee_spec(base), collateral))
            },
        },
    }
}

/// Prices the move of a market of norm `k_norm` from `(from_mean,
/// from_variance)` to `(to_mean, to_variance)` at `size`: the cost with its
/// fee, the fee, and the collateral.
pub fn calculate_trade_cost(
    k_norm: u64,
    from_mean: u64,
    from_variance: u64,
    to_mean: u64,
    to_variance: u64,
    size: u64,
) -> (r: Result<(u64, u64, u64), CalcError>)
    ensures
        r == trade_cost_spec(k_norm, from_mean, from_variance, to_mean, to_variance, size),
        r matches Ok((cost, fee, collateral)) ==> {
            &&& cost >= fee
            &&& Ok::<u64, CalcError>((cost - fee) as u64) == base_cost_spec(
                k_norm,
                from_mean,
                from_variance,
                to_mean,
                to_variance,
                size,
            )
            &&& fee == fee_spec((cost - fee) as u64)
        },
{
    let from = match ScaledNormal::of_norm(k_norm, from_mean, from_variance) {
        Ok(v) => v,
        Err(e) => {
            return Err(e);
        },
    };
    let to = match ScaledNormal::of_norm(k_norm, to_mean, to_variance) {
        Ok(v) => v,
        Err(e) => {
            return Err(e);
        },
    };
    let l2_diff = match calculate_l2_norm_difference(
        from_mean,
        from_variance,
        from.lambda,
        to_mean,
        to_variance,
        to.lambda,
    ) {
        Ok(v) => v,
        Err(e) => {
            return Err(e);
        },
    };
    let base_cost = match mul_fixed(l2_diff, size) {
        Ok(v) => v,
        Err(e) => {
            return Err(e);
        },
    };
    let fee = ((base_cost as u128 * FEE_PER_MILLE as u128) / 1000) as u64;
    let collateral_required = match calculate_collateral_requirement(
        k_norm,
        from_mean,
        from_variance,
        to_mean,
        to_variance,
        size,
    ) {
        Ok(v) => v,
        Err(e) => {
            return Err(e);
        },
    };
    match base_cost.checked_add(fee) {
        Some(cost) => Ok((cost, fee, collateral_required)),
        None => Err(CalcError::AddOverflow),
    }
}

/// Moving from A to B is as far as moving from B to A: the two distances
/// exist together and are then equal.
pub proof fn lemma_move_distance_symmetric(
    k_norm: u64,
    mean_a: u64,
    variance_a: u64,
    mean_b: u64,
    variance_b: u64,
)
    ensures
        move_distance_spec(k_norm, mean_a, variance_a, mean_b, variance_b) is Ok
            <==> move_distance_spec(k_norm, mean_b, variance_b, mean_a, variance_a) is Ok,
        move_distance_spec(k_norm, mean_a, variance_a, mean_b, variance_b) is Ok
            ==> move_distance_spec(k_norm, mean_a, variance_a, mean_b, variance_b)
            == move_distance_spec(k_norm, mean_b, variance_b, mean_a, variance_a),
{
    let a = ScaledNormal::of_norm_spec(k_norm, mean_a, variance_a);
    let b = ScaledNormal::of_norm_spec(k_norm, mean_b, variance_b);
    if a is Ok && b is Ok {
        let a = a->Ok_0;
        let b = b->Ok_0;
        lemma_l2_distance_symmetric(
            a.mean,
            a.variance,
            a.lambda,
            b.mean,
            b.variance,
            b.lambda,
        );
    }
}

/// A move of the mean by `delta` costs the same upward as downward: the
/// base cost depends on the two means by their distance alone.
pub proof fn lemma_base_cost_mirrored(
    k_norm: u64,
    mean: u64,
    variance: u64,
    delta: u64,
    new_variance: u64,
    size: u64,
)
    requires
        delta <= mean,
        mean + delta <= u64::MAX,
    ensures
        base_cost_spec(k_norm, mean, variance, (mean + delta) as u64, new_variance, size)
            == base_cost_spec(k_norm, mean, variance, (mean - delta) as u64, new_variance, size),
{
}

} // verus!
