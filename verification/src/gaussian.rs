//! Gaussian primitives on fixed-point values: density, distribution function,
//! the scale that gives a density its L2 norm, and the L2 distance of two
//! scaled densities.

use vstd::prelude::*;
use crate::fixed::{
    div_fixed, div_fixed_or, div_fixed_spec, erf_fixed, erf_fixed_spec, exp_neg_fixed,
    exp_neg_fixed_spec, floor_sqrt, in_erf_tail, lemma_erf_ends, lemma_floor_sqrt_bound,
    lemma_mul_fixed_commutes, mul_fixed, mul_fixed_or, mul_fixed_spec,
    sat_add, sat_mul, sat_sub, saturating_mul_u64, sqrt_fixed, sqrt_fixed_spec, value_or,
    CalcError, DECIMALS, MIN_VARIANCE, PI_FIXED, SQRT_2PI_FIXED, SQRT_2_FIXED,
    SQRT_DECIMALS, SQRT_PI_FIXED,
};
use crate::records::Market;

verus! {

/// Exponents above this are cut off to a density of zero.
pub const PDF_EXPONENT_MAX: u64 = 10_000_000_000;

pub open spec fn abs_diff(a: u64, b: u64) -> u64 {
    if a > b {
        (a - b) as u64
    } else {
        (b - a) as u64
    }
}

/// A variance at or above the floor has a standard deviation well above zero.
pub proof fn lemma_sigma_positive(variance: u64)
    requires
        variance >= MIN_VARIANCE,
    ensures
        sqrt_fixed_spec(variance) >= 1000 * SQRT_DECIMALS,
        sqrt_fixed_spec(variance) == floor_sqrt(variance as int) * SQRT_DECIMALS,
        sqrt_fixed_spec(variance) <= 0xffff_ffff * SQRT_DECIMALS,
{
    lemma_floor_sqrt_bound(variance);
    let r = floor_sqrt(variance as int);
    if r < 1000 {
        assert((r + 1) * (r + 1) <= 1000 * 1000) by (nonlinear_arith)
            requires
                0 <= r < 1000,
        ;
    }
}

// ---------------------------------------------------------------------------
// Density
// ---------------------------------------------------------------------------

/// `(x - mean)^2 / (2 variance)`, saturating.
pub open spec fn pdf_exponent(x: u64, mean: u64, variance: u64) -> u64 {
    let diff = abs_diff(x, mean);
    value_or(
        div_fixed_spec(value_or(mul_fixed_spec(diff, diff), u64::MAX), sat_mul(variance, 2)),
        u64::MAX,
    )
}

/// `1 / (sigma sqrt(2 pi))`.
pub open spec fn pdf_normalization(sigma: u64) -> u64 {
    value_or(
        div_fixed_spec(DECIMALS, value_or(mul_fixed_spec(sigma, SQRT_2PI_FIXED), u64::MAX)),
        0,
    )
}

pub open spec fn normal_pdf_spec(x: u64, mean: u64, variance: u64) -> u64 {
    let sigma = sqrt_fixed_spec(variance);
    if variance < MIN_VARIANCE || abs_diff(x, mean) > sat_mul(sigma, 4) || pdf_exponent(
        x,
        mean,
        variance,
    ) > PDF_EXPONENT_MAX {
        0
    } else {
        value_or(
            mul_fixed_spec(
                pdf_normalization(sigma),
                exp_neg_fixed_spec(pdf_exponent(x, mean, variance)),
            ),
            0,
        )
    }
}

/// The density of `N(mean, variance)` at `x`: zero below the variance floor
/// and further than four standard deviations from the mean.
pub fn normal_pdf(x: u64, mean: u64, variance: u64) -> (r: u64)
    ensures
        r == normal_pdf_spec(x, mean, variance),
        variance < MIN_VARIANCE ==> r == 0,
        abs_diff(x, mean) > sat_mul(sqrt_fixed_spec(variance), 4) ==> r == 0,
{
    if variance < MIN_VARIANCE {
        return 0;
    }
    let sigma = sqrt_fixed(variance);
    proof {
        lemma_sigma_positive(variance);
    }
    let diff = if x > mean {
        x - mean
    } else {
        mean - x
    };
    let four_sigma = saturating_mul_u64(sigma, 4);
    if diff > four_sigma {
        return 0;
    }
    let diff_squared = mul_fixed_or(diff, diff, u64::MAX);
    let two_variance = saturating_mul_u64(variance, 2);
    let exponent = div_fixed_or(diff_squared, two_variance, u64::MAX);
    if exponent > PDF_EXPONENT_MAX {
        return 0;
    }
    let exp_value = exp_neg_fixed(exponent);
    let sigma_sqrt_2pi = mul_fixed_or(sigma, SQRT_2PI_FIXED, u64::MAX);
    let normalization = div_fixed_or(DECIMALS, sigma_sqrt_2pi, 0);
    mul_fixed_or(normalization, exp_value, 0)
}

// ---------------------------------------------------------------------------
// Distribution function
// ---------------------------------------------------------------------------

/// `|x - mean| / (sigma sqrt 2)`, saturating.
pub open spec fn cdf_z(x: u64, mean: u64, variance: u64) -> u64 {
    let sqrt_2_sigma = value_or(
        mul_fixed_spec(SQRT_2_FIXED, sqrt_fixed_spec(variance)),
        u64::MAX,
    );
    value_or(div_fixed_spec(abs_diff(x, mean), sqrt_2_sigma), u64::MAX)
}

pub open spec fn normal_cdf_spec(x: u64, mean: u64, variance: u64) -> u64 {
    if variance < MIN_VARIANCE {
        if x >= mean {
            DECIMALS
        } else {
            0
        }
    } else {
        let erf_z = erf_fixed_spec(cdf_z(x, mean, variance));
        let half = (DECIMALS / 2) as u64;
        if x >= mean {
            value_or(div_fixed_spec(sat_add(DECIMALS, erf_z), (2 * DECIMALS) as u64), half)
        } else {
            value_or(div_fixed_spec(sat_sub(DECIMALS, erf_z), (2 * DECIMALS) as u64), half)
        }
    }
}

/// The distribution function of `N(mean, variance)` at `x`; below the
/// variance floor, the step at the mean.
pub fn normal_cdf(x: u64, mean: u64, variance: u64) -> (r: u64)
    ensures
        r == normal_cdf_spec(x, mean, variance),
        r <= DECIMALS,
        variance >= MIN_VARIANCE && x == mean ==> r == DECIMALS / 2,
        variance >= MIN_VARIANCE && x < mean && in_erf_tail(cdf_z(x, mean, variance)) ==> r == 0,
        variance >= MIN_VARIANCE && x > mean && in_erf_tail(cdf_z(x, mean, variance)) ==> r
            == DECIMALS,
{
    if variance < MIN_VARIANCE {
        return if x >= mean {
            DECIMALS
        } else {
            0
        };
    }
    let sigma = sqrt_fixed(variance);
    let sqrt_2_sigma = mul_fixed_or(SQRT_2_FIXED, sigma, u64::MAX);
    proof {
        lemma_sigma_positive(variance);
        lemma_cdf_divisor_positive(variance);
    }
    if x >= mean {
        let z = div_fixed_or(x - mean, sqrt_2_sigma, u64::MAX);
        let erf_z = erf_fixed(z);
        proof {
            lemma_halving(sat_add(DECIMALS, erf_z));
            if x == mean {
                assert(0 * DECIMALS as int == 0);
                assert(0int / (sqrt_2_sigma as int) == 0) by (nonlinear_arith)
                    requires
                        sqrt_2_sigma > 0,
                ;
                assert(z == 0);
            }
        }
        div_fixed_or(DECIMALS.saturating_add(erf_z), 2 * DECIMALS, DECIMALS / 2)
    } else {
        let z_pos = div_fixed_or(mean - x, sqrt_2_sigma, u64::MAX);
        let erf_z = erf_fixed(z_pos);
        proof {
            lemma_halving(sat_sub(DECIMALS, erf_z));
        }
        div_fixed_or(DECIMALS - erf_z, 2 * DECIMALS, DECIMALS / 2)
    }
}

/// Dividing by two at the fixed scale halves.
proof fn lemma_halving(a: u64)
    requires
        a <= 2 * DECIMALS,
    ensures
        div_fixed_spec(a, (2 * DECIMALS) as u64) == Ok::<u64, CalcError>((a / 2) as u64),
{
    assert(a as int * DECIMALS as int == DECIMALS as int * a as int) by (nonlinear_arith);
    vstd::arithmetic::div_mod::lemma_div_denominator(
        DECIMALS as int * a as int,
        DECIMALS as int,
        2,
    );
    vstd::arithmetic::div_mod::lemma_div_multiples_vanish(a as int, DECIMALS as int);
    assert(a as int * DECIMALS as int / (DECIMALS as int) == a as int);
    assert((DECIMALS as int) * 2 == 2 * DECIMALS);
}

/// `sigma sqrt 2` is positive and small for every variance at the floor or above.
proof fn lemma_cdf_divisor_positive(variance: u64)
    requires
        variance >= MIN_VARIANCE,
    ensures
        mul_fixed_spec(SQRT_2_FIXED, sqrt_fixed_spec(variance)) is Ok,
        value_or(mul_fixed_spec(SQRT_2_FIXED, sqrt_fixed_spec(variance)), u64::MAX) > 0,
{
    lemma_sigma_positive(variance);
    let sigma = sqrt_fixed_spec(variance);
    assert(SQRT_2_FIXED as int * sigma as int >= 1_414_213_562 * 31_623_000) by (nonlinear_arith)
        requires
            sigma >= 31_623_000,
            SQRT_2_FIXED == 1_414_213_562,
    ;
    assert(SQRT_2_FIXED as int * sigma as int <= 1_414_213_562 * (0xffff_ffff * 31_623))
        by (nonlinear_arith)
        requires
            sigma <= 0xffff_ffff * 31_623,
            SQRT_2_FIXED == 1_414_213_562,
    ;
}

/// The density is the same at equal distances to either side of the mean.
pub proof fn lemma_pdf_symmetric(mean: u64, variance: u64, delta: u64)
    requires
        delta <= mean,
        mean + delta <= u64::MAX,
    ensures
        normal_pdf_spec((mean + delta) as u64, mean, variance) == normal_pdf_spec(
            (mean - delta) as u64,
            mean,
            variance,
        ),
{
}

/// What lies below a point left of the mean and what lies below its mirror
/// image right of the mean make up the whole, to within one unit of
/// rounding.
pub proof fn lemma_cdf_complement(mean: u64, variance: u64, delta: u64)
    requires
        variance >= MIN_VARIANCE,
        0 < delta <= mean,
        mean + delta <= u64::MAX,
    ensures
        ({
            let above = normal_cdf_spec((mean + delta) as u64, mean, variance);
            let below = normal_cdf_spec((mean - delta) as u64, mean, variance);
            above + below == DECIMALS || above + below == DECIMALS - 1
        }),
{
    let z = cdf_z((mean + delta) as u64, mean, variance);
    assert(cdf_z((mean - delta) as u64, mean, variance) == z);
    let e = erf_fixed_spec(z);
    lemma_erf_ends(z);
    lemma_halving(sat_add(DECIMALS, e));
    lemma_halving(sat_sub(DECIMALS, e));
}

// ---------------------------------------------------------------------------
// Scale, peak, bounds
// ---------------------------------------------------------------------------

/// `2 sigma sqrt(pi)`, the divisor of the L2 norm of a density.
pub open spec fn two_sigma_sqrt_pi(sigma: u64) -> Result<u64, CalcError> {
    match mul_fixed_spec((2 * DECIMALS) as u64, sigma) {
        Err(e) => Err(e),
        Ok(two_sigma) => mul_fixed_spec(two_sigma, SQRT_PI_FIXED),
    }
}

fn compute_two_sigma_sqrt_pi(sigma: u64) -> (r: Result<u64, CalcError>)
    ensures
        r == two_sigma_sqrt_pi(sigma),
{
    match mul_fixed(2 * DECIMALS, sigma) {
        Err(e) => Err(e),
        Ok(two_sigma) => mul_fixed(two_sigma, SQRT_PI_FIXED),
    }
}

pub open spec fn l2_norm_normal_spec(variance: u64) -> Result<u64, CalcError> {
    if variance < MIN_VARIANCE {
        Err(CalcError::VarianceTooSmall)
    } else {
        match two_sigma_sqrt_pi(sqrt_fixed_spec(variance)) {
            Err(e) => Err(e),
            Ok(d) => div_fixed_spec(DECIMALS, d),
        }
    }
}

/// The squared L2 norm of the unscaled density, `1 / (2 sigma sqrt(pi))`.
pub fn calculate_l2_norm_normal(variance: u64) -> (r: Result<u64, CalcError>)
    ensures
        r == l2_norm_normal_spec(variance),
        variance < MIN_VARIANCE <==> r == Err::<u64, CalcError>(CalcError::VarianceTooSmall),
{
    if variance < MIN_VARIANCE {
        return Err(CalcError::VarianceTooSmall);
    }
    let sigma = sqrt_fixed(variance);
    match compute_two_sigma_sqrt_pi(sigma) {
        Err(e) => Err(e),
        Ok(d) => div_fixed(DECIMALS, d),
    }
}

pub open spec fn lambda_spec(k_norm: u64, variance: u64) -> Result<u64, CalcError> {
    if variance < MIN_VARIANCE {
        Err(CalcError::VarianceTooSmall)
    } else {
        match mul_fixed_spec(sqrt_fixed_spec(variance), SQRT_2PI_FIXED) {
            Err(e) => Err(e),
            Ok(s) => mul_fixed_spec(k_norm, s),
        }
    }
}

/// The scale `K sigma sqrt(2 pi)` of a market's density.
pub fn calculate_lambda(k_norm: u64, variance: u64) -> (r: Result<u64, CalcError>)
    ensures
        r == lambda_spec(k_norm, variance),
        variance < MIN_VARIANCE <==> r == Err::<u64, CalcError>(CalcError::VarianceTooSmall),
{
    if variance < MIN_VARIANCE {
        return Err(CalcError::VarianceTooSmall);
    }
    let sigma = sqrt_fixed(variance);
    match mul_fixed(sigma, SQRT_2PI_FIXED) {
        Err(e) => Err(e),
        Ok(s) => mul_fixed(k_norm, s),
    }
}

/// The peak of the scaled density: `K`, whatever the variance.
pub fn calculate_f_max(k_norm: u64, variance: u64) -> (r: Result<u64, CalcError>)
    ensures
        r == Ok::<u64, CalcError>(k_norm),
{
    Ok(k_norm)
}

pub open spec fn min_variance_spec(k_norm: u64, b_backing: u64) -> Result<u64, CalcError> {
    if b_backing == 0 {
        Err(CalcError::BackingZero)
    } else {
        Ok(MIN_VARIANCE)
    }
}

/// The least variance a market with this backing may take: the global floor.
pub fn calculate_min_variance(k_norm: u64, b_backing: u64) -> (r: Result<u64, CalcError>)
    ensures
        r == min_variance_spec(k_norm, b_backing),
{
    if b_backing == 0 {
        return Err(CalcError::BackingZero);
    }
    Ok(MIN_VARIANCE)
}

/// The expected outcome under `N(mean, variance)`.
pub fn calculate_expected_value(mean: u64, variance: u64) -> (r: u64)
    ensures
        r == mean,
{
    mean
}

pub open spec fn distribution_bounds_spec(mean: u64, variance: u64) -> (u64, u64) {
    let three_sigma = sat_mul(sqrt_fixed_spec(variance), 3);
    (sat_sub(mean, three_sigma), sat_add(mean, three_sigma))
}

/// `(mean - 3 sigma, mean + 3 sigma)`, clamped to the range of `u64`.
pub fn get_distribution_bounds(mean: u64, variance: u64) -> (r: (u64, u64))
    ensures
        r == distribution_bounds_spec(mean, variance),
        r.0 <= mean <= r.1,
{
    let sigma = sqrt_fixed(variance);
    let three_sigma = saturating_mul_u64(sigma, 3);
    let lower = mean.saturating_sub(three_sigma);
    let upper = mean.saturating_add(three_sigma);
    (lower, upper)
}

/// The scaled density `lambda N(x; mean, variance)`.
pub open spec fn scaled_pdf_spec(lambda: u64, x: u64, mean: u64, variance: u64) -> Result<
    u64,
    CalcError,
> {
    mul_fixed_spec(lambda, normal_pdf_spec(x, mean, variance))
}

/// A scaled Gaussian `lambda N(mean, variance)`.
#[derive(Clone, Copy, Debug, PartialEq, Eq, Structural)]
pub struct ScaledNormal {
    pub lambda: u64,
    pub mean: u64,
    pub variance: u64,
}

impl ScaledNormal {
    /// The value of the scaled density at `x`.
    pub open spec fn at(self, x: u64) -> Result<u64, CalcError> {
        scaled_pdf_spec(self.lambda, x, self.mean, self.variance)
    }

    /// The scaled Gaussian of norm `k_norm` around `mean`.
    pub open spec fn of_norm_spec(k_norm: u64, mean: u64, variance: u64) -> Result<
        ScaledNormal,
        CalcError,
    > {
        match lambda_spec(k_norm, variance) {
            Err(e) => Err(e),
            Ok(lambda) => Ok(ScaledNormal { lambda, mean, variance }),
        }
    }

    /// The scaled Gaussian of norm `k_norm` around `mean`; fails where its
    /// scale cannot be computed.
    pub fn of_norm(k_norm: u64, mean: u64, variance: u64) -> (r: Result<ScaledNormal, CalcError>)
        ensures
            r == Self::of_norm_spec(k_norm, mean, variance),
    {
        match calculate_lambda(k_norm, variance) {
            Err(e) => Err(e),
            Ok(lambda) => Ok(ScaledNormal { lambda, mean, variance }),
        }
    }

    /// The value of the scaled density at `x`.
    pub fn density_at(&self, x: u64) -> (r: Result<u64, CalcError>)
        ensures
            r == self.at(x),
    {
        mul_fixed(self.lambda, normal_pdf(x, self.mean, self.variance))
    }
}

/// The market's density at `x`, capped at its backing; zero where the scale
/// or the product cannot be computed.
pub open spec fn capped_density_spec(x: u64, market: Market) -> u64 {
    let lambda = value_or(lambda_spec(market.k_norm, market.current_variance), 0);
    let f = value_or(
        scaled_pdf_spec(lambda, x, market.current_mean, market.current_variance),
        0,
    );
    if f > market.b_backing {
        market.b_backing
    } else {
        f
    }
}

/// The market's density at `x`, capped at its backing.
pub fn capped_density(x: u64, market: &Market) -> (r: u64)
    ensures
        r == capped_density_spec(x, *market),
        r <= market.b_backing,
{
    let lambda = match calculate_lambda(market.k_norm, market.current_variance) {
        Ok(v) => v,
        Err(_) => 0,
    };
    let pdf_value = normal_pdf(x, market.current_mean, market.current_variance);
    let f_value = mul_fixed_or(lambda, pdf_value, 0);
    if f_value > market.b_backing {
        market.b_backing
    } else {
        f_value
    }
}

pub open spec fn amm_holdings_spec(x: u64, market: Market) -> u64 {
    (market.b_backing - capped_density_spec(x, market)) as u64
}

/// What the market maker holds at `x`: the backing left above the density.
pub fn calculate_amm_holdings(x: u64, market: &Market) -> (r: u64)
    ensures
        r == amm_holdings_spec(x, *market),
        r + capped_density_spec(x, *market) == market.b_backing,
{
    let capped_f_value = capped_density(x, market);
    market.b_backing - capped_f_value
}

// ---------------------------------------------------------------------------
// L2 distance
// ---------------------------------------------------------------------------

/// `lambda^2 / (2 sigma sqrt(pi))`, the squared L2 norm of one scaled density.
pub open spec fn self_term_spec(lambda: u64, variance: u64) -> Result<u64, CalcError> {
    match mul_fixed_spec(lambda, lambda) {
        Err(e) => Err(e),
        Ok(lambda_squared) => match two_sigma_sqrt_pi(sqrt_fixed_spec(variance)) {
            Err(e) => Err(e),
            Ok(d) => div_fixed_spec(lambda_squared, d),
        },
    }
}

fn self_term(lambda: u64, variance: u64) -> (r: Result<u64, CalcError>)
    ensures
        r == self_term_spec(lambda, variance),
{
    let sigma = sqrt_fixed(variance);
    match mul_fixed(lambda, lambda) {
        Err(e) => Err(e),
        Ok(lambda_squared) => match compute_two_sigma_sqrt_pi(sigma) {
            Err(e) => Err(e),
            Ok(d) => div_fixed(lambda_squared, d),
        },
    }
}

/// `2 <f, g>`: twice the inner product
/// `l1 l2 exp(-(m1 - m2)^2 / (2 (v1 + v2))) / sqrt(2 pi (v1 + v2))`.
pub open spec fn cross_term_spec(
    mean1: u64,
    variance1: u64,
    lambda1: u64,
    mean2: u64,
    variance2: u64,
    lambda2: u64,
) -> Result<u64, CalcError> {
    if variance1 + variance2 > u64::MAX {
        Err(CalcError::AddOverflow)
    } else {
        let variance_sum = (variance1 + variance2) as u64;
        let mean_diff = abs_diff(mean1, mean2);
        match mul_fixed_spec(mean_diff, mean_diff) {
            Err(e) => Err(e),
            Ok(mean_diff_squared) => match div_fixed_spec(
                mean_diff_squared,
                sat_mul(variance_sum, 2),
            ) {
                Err(e) => Err(e),
                Ok(exponent) => match mul_fixed_spec(lambda1, lambda2) {
                    Err(e) => Err(e),
                    Ok(lambda_product) => match mul_fixed_spec(
                        (2 * DECIMALS) as u64,
                        PI_FIXED,
                    ) {
                        Err(e) => Err(e),
                        Ok(two_pi) => match mul_fixed_spec(two_pi, variance_sum) {
                            Err(e) => Err(e),
                            Ok(two_pi_variance) => match div_fixed_spec(
                                sat_mul(lambda_product, 2),
                                sqrt_fixed_spec(two_pi_variance),
                            ) {
                                Err(e) => Err(e),
                                Ok(coefficient) => mul_fixed_spec(
                                    coefficient,
                                    exp_neg_fixed_spec(exponent),
                                ),
                            },
                        },
                    },
                },
            },
        }
    }
}

fn cross_term(
    mean1: u64,
    variance1: u64,
    lambda1: u64,
    mean2: u64,
    variance2: u64,
    lambda2: u64,
) -> (r: Result<u64, CalcError>)
    ensures
        r == cross_term_spec(mean1, variance1, lambda1, mean2, variance2, lambda2),
{
    let variance_sum = match variance1.checked_add(variance2) {
        Some(v) => v,
        None => {
            return Err(CalcError::AddOverflow);
        },
    };
    let mean_diff = if mean1 > mean2 {
        mean1 - mean2
    } else {
        mean2 - mean1
    };
    let mean_diff_squared = match mul_fixed(mean_diff, mean_diff) {
        Ok(v) => v,
        Err(e) => {
            return Err(e);
        },
    };
    let two_variance_sum = saturating_mul_u64(variance_sum, 2);
    let exponent = match div_fixed(mean_diff_squared, two_variance_sum) {
        Ok(v) => v,
        Err(e) => {
            return Err(e);
        },
    };
    let exp_term = exp_neg_fixed(exponent);
    let lambda_product = match mul_fixed(lambda1, lambda2) {
        Ok(v) => v,
        Err(e) => {
            return Err(e);
        },
    };
    let two_lambda_product = saturating_mul_u64(lambda_product, 2);
    let two_pi = match mul_fixed(2 * DECIMALS, PI_FIXED) {
        Ok(v) => v,
        Err(e) => {
            return Err(e);
        },
    };
    let two_pi_variance = match mul_fixed(two_pi, variance_sum) {
        Ok(v) => v,
        Err(e) => {
            return Err(e);
        },
    };
    let sqrt_2pi_variance_sum = sqrt_fixed(two_pi_variance);
    let coefficient = match div_fixed(two_lambda_product, sqrt_2pi_variance_sum) {
        Ok(v) => v,
        Err(e) => {
            return Err(e);
        },
    };
    mul_fixed(coefficient, exp_term)
}

pub open spec fn l2_norm_difference_spec(
    mean1: u64,
    variance1: u64,
    lambda1: u64,
    mean2: u64,
    variance2: u64,
    lambda2: u64,
) -> Result<u64, CalcError> {
    match self_term_spec(lambda1, variance1) {
        Err(e) => Err(e),
        Ok(term1) => match self_term_spec(lambda2, variance2) {
            Err(e) => Err(e),
            Ok(term2) => match cross_term_spec(
                mean1,
                variance1,
                lambda1,
                mean2,
                variance2,
                lambda2,
            ) {
                Err(e) => Err(e),
                Ok(term3) => Ok(sqrt_fixed_spec(sat_sub(sat_add(term1, term2), term3))),
            },
        },
    }
}

/// The L2 distance of two scaled densities,
/// `sqrt(|f|^2 + |g|^2 - 2 <f, g>)`, with the difference clamped at zero
/// where rounding would make it negative.
pub fn calculate_l2_norm_difference(
    mean1: u64,
    variance1: u64,
    lambda1: u64,
    mean2: u64,
    variance2: u64,
    lambda2: u64,
) -> (r: Result<u64, CalcError>)
    ensures
        r == l2_norm_difference_spec(mean1, variance1, lambda1, mean2, variance2, lambda2),
{
    let term1 = match self_term(lambda1, variance1) {
        Ok(v) => v,
        Err(e) => {
            return Err(e);
        },
    };
    let term2 = match self_term(lambda2, variance2) {
        Ok(v) => v,
        Err(e) => {
            return Err(e);
        },
    };
    let term3 = match cross_term(mean1, variance1, lambda1, mean2, variance2, lambda2) {
        Ok(v) => v,
        Err(e) => {
            return Err(e);
        },
    };
    let sum = term1.saturating_add(term2);
    let l2_norm_squared = sum.saturating_sub(term3);
    Ok(sqrt_fixed(l2_norm_squared))
}

/// The inner product does not depend on the order of the two densities.
pub proof fn lemma_cross_term_symmetric(
    mean1: u64,
    variance1: u64,
    lambda1: u64,
    mean2: u64,
    variance2: u64,
    lambda2: u64,
)
    ensures
        cross_term_spec(mean1, variance1, lambda1, mean2, variance2, lambda2) == cross_term_spec(
            mean2,
            variance2,
            lambda2,
            mean1,
            variance1,
            lambda1,
        ),
{
    lemma_mul_fixed_commutes(lambda1, lambda2);
}

/// The distance from one scaled density to another is the distance back:
/// both directions succeed together, and then with the very same value.
pub proof fn lemma_l2_distance_symmetric(
    mean1: u64,
    variance1: u64,
    lambda1: u64,
    mean2: u64,
    variance2: u64,
    lambda2: u64,
)
    ensures
        l2_norm_difference_spec(mean1, variance1, lambda1, mean2, variance2, lambda2) is Ok
            <==> l2_norm_difference_spec(mean2, variance2, lambda2, mean1, variance1, lambda1) is Ok,
        l2_norm_difference_spec(mean1, variance1, lambda1, mean2, variance2, lambda2) is Ok
            ==> l2_norm_difference_spec(mean1, variance1, lambda1, mean2, variance2, lambda2)
            == l2_norm_difference_spec(mean2, variance2, lambda2, mean1, variance1, lambda1),
{
    lemma_cross_term_symmetric(mean1, variance1, lambda1, mean2, variance2, lambda2);
}

} // verus!
