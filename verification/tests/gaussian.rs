use distribution_market::fixed::{CalcError, DECIMALS, MIN_VARIANCE};
use distribution_market::gaussian::{
    calculate_amm_holdings, calculate_expected_value, calculate_f_max, calculate_l2_norm_difference,
    calculate_l2_norm_normal, calculate_lambda, calculate_min_variance, capped_density,
    get_distribution_bounds, normal_cdf, normal_pdf, ScaledNormal,
};
use distribution_market::records::Market;

const D: u64 = DECIMALS;
const K: u64 = 10 * D;

fn market(k_norm: u64, b_backing: u64, mean: u64, variance: u64) -> Market {
    Market {
        creator: [7u8; 20],
        creation_time: 1,
        close_time: 2_000_000,
        k_norm,
        b_backing,
        current_mean: mean,
        current_variance: variance,
        total_lp_shares: b_backing,
        total_backing: b_backing,
        accumulated_fees: 0,
        next_position_id: 0,
        total_volume: 0,
        status: 0,
        resolution_mean: 0,
        resolution_variance: 0,
    }
}

#[test]
fn pdf_at_and_around_the_mean() {
    assert_eq!(normal_pdf(50 * D, 50 * D, 4 * D), 199_471_475);
    assert_eq!(normal_pdf(52 * D, 50 * D, 4 * D), 120_985_565);
    assert_eq!(normal_pdf(48 * D, 50 * D, 4 * D), 120_985_565);
    assert_eq!(normal_pdf(50 * D, 50 * D, MIN_VARIANCE), 12_615_573_635);
}

#[test]
fn pdf_is_zero_below_the_variance_floor() {
    assert_eq!(normal_pdf(50 * D, 50 * D, MIN_VARIANCE - 1), 0);
    assert_eq!(normal_pdf(50 * D, 50 * D, 0), 0);
}

#[test]
fn pdf_is_cut_off_four_sigma_out() {
    // four sigma of variance 4 is 7.99998654
    assert_eq!(normal_pdf(50 * D + 7_999_986_540, 50 * D, 4 * D), 68_091);
    assert_eq!(normal_pdf(50 * D + 7_999_986_541, 50 * D, 4 * D), 0);
    assert_eq!(normal_pdf(59 * D, 50 * D, 4 * D), 0);
    assert_eq!(normal_pdf(0, 50 * D, 4 * D), 0);
}

#[test]
fn pdf_survives_the_largest_variance() {
    assert_eq!(normal_pdf(0, 0, u64::MAX), 2937);
}

#[test]
fn cdf_is_one_half_at_the_mean() {
    assert_eq!(normal_cdf(50 * D, 50 * D, 4 * D), D / 2);
    assert_eq!(normal_cdf(0, 0, MIN_VARIANCE), D / 2);
    assert_eq!(normal_cdf(u64::MAX, u64::MAX, u64::MAX), D / 2);
}

#[test]
fn cdf_goes_from_zero_to_one() {
    assert_eq!(normal_cdf(0, 50 * D, 4 * D), 0);
    assert_eq!(normal_cdf(100 * D, 50 * D, 4 * D), D);
    assert_eq!(normal_cdf(u64::MAX, 50 * D, 4 * D), D);
    assert_eq!(normal_cdf(40 * D, 50 * D, 4 * D), 395);
    assert_eq!(normal_cdf(60 * D, 50 * D, 4 * D), 999_999_604);
}

#[test]
fn cdf_values_beside_the_mean() {
    assert_eq!(normal_cdf(52 * D, 50 * D, 4 * D), 841_345_143);
    assert_eq!(normal_cdf(48 * D, 50 * D, 4 * D), 158_654_856);
    assert_eq!(normal_cdf(51 * D, 50 * D, 4 * D), 691_408_716);
    assert_eq!(normal_cdf(49 * D, 50 * D, 4 * D), 308_591_284);
}

#[test]
fn cdf_is_a_step_below_the_variance_floor() {
    assert_eq!(normal_cdf(50 * D, 50 * D, MIN_VARIANCE - 1), D);
    assert_eq!(normal_cdf(50 * D - 1, 50 * D, MIN_VARIANCE - 1), 0);
    assert_eq!(normal_cdf(50 * D + 1, 50 * D, 0), D);
}

#[test]
fn lambda_scales_with_k_and_sigma() {
    assert_eq!(calculate_lambda(K, 4 * D), Ok(50_132_481_150));
    assert_eq!(calculate_lambda(D, D), Ok(2_506_584_424));
    assert_eq!(calculate_lambda(K, MIN_VARIANCE), Ok(792_671_050));
    assert_eq!(calculate_lambda(0, 4 * D), Ok(0));
}

#[test]
fn lambda_names_its_failures() {
    assert_eq!(calculate_lambda(K, MIN_VARIANCE - 1), Err(CalcError::VarianceTooSmall));
    assert_eq!(calculate_lambda(u64::MAX, u64::MAX), Err(CalcError::MulOverflow));
}

#[test]
fn l2_norm_of_the_unscaled_density() {
    assert_eq!(calculate_l2_norm_normal(4 * D), Ok(141_047_633));
    assert_eq!(calculate_l2_norm_normal(D), Ok(282_099_726));
    assert_eq!(calculate_l2_norm_normal(MIN_VARIANCE), Ok(8_920_557_581));
    assert_eq!(calculate_l2_norm_normal(MIN_VARIANCE - 1), Err(CalcError::VarianceTooSmall));
}

#[test]
fn peak_floor_and_expectation() {
    assert_eq!(calculate_f_max(K, 4 * D), Ok(K));
    assert_eq!(calculate_f_max(K, 0), Ok(K));
    assert_eq!(calculate_min_variance(K, 1), Ok(MIN_VARIANCE));
    assert_eq!(calculate_min_variance(K, 0), Err(CalcError::BackingZero));
    assert_eq!(calculate_expected_value(50 * D, 4 * D), 50 * D);
}

#[test]
fn bounds_are_three_sigma_wide() {
    assert_eq!(get_distribution_bounds(50 * D, 4 * D), (44_000_010_095, 55_999_989_905));
    assert_eq!(get_distribution_bounds(D, 4 * D), (0, 6_999_989_905));
    assert_eq!(get_distribution_bounds(u64::MAX, 4 * D).1, u64::MAX);
    assert_eq!(get_distribution_bounds(50 * D, 0), (50 * D, 50 * D));
}

#[test]
fn holdings_are_the_backing_above_the_density() {
    let m = market(K, K, 50 * D, 4 * D);
    assert_eq!(capped_density(50 * D, &m), 9_999_999_960);
    assert_eq!(calculate_amm_holdings(50 * D, &m), 40);
    assert_eq!(capped_density(52 * D, &m), 6_065_306_556);
    assert_eq!(calculate_amm_holdings(52 * D, &m), 3_934_693_444);
    assert_eq!(capped_density(70 * D, &m), 0);
    assert_eq!(calculate_amm_holdings(70 * D, &m), K);
}

#[test]
fn holdings_are_capped_by_a_thin_backing() {
    let m = market(K, 100, 50 * D, 4 * D);
    assert_eq!(capped_density(50 * D, &m), 100);
    assert_eq!(calculate_amm_holdings(50 * D, &m), 0);
    let below_floor = market(K, 100, 50 * D, 5);
    assert_eq!(capped_density(50 * D, &below_floor), 0);
    assert_eq!(calculate_amm_holdings(50 * D, &below_floor), 100);
}

#[test]
fn scaled_normal_has_the_scale_of_its_norm() {
    let n = ScaledNormal::of_norm(K, 50 * D, 4 * D).unwrap();
    assert_eq!(n, ScaledNormal { lambda: 50_132_481_150, mean: 50 * D, variance: 4 * D });
    assert_eq!(n.density_at(50 * D), Ok(9_999_999_960));
    assert_eq!(
        ScaledNormal::of_norm(K, 50 * D, 1),
        Err(CalcError::VarianceTooSmall)
    );
}

#[test]
fn l2_distance_is_the_same_both_ways() {
    let l4 = calculate_lambda(K, 4 * D).unwrap();
    let l9 = calculate_lambda(K, 9 * D).unwrap();
    let there = calculate_l2_norm_difference(50 * D, 4 * D, l4, 52 * D, 4 * D, l4);
    let back = calculate_l2_norm_difference(52 * D, 4 * D, l4, 50 * D, 4 * D, l4);
    assert_eq!(there, Ok(12_523_213_968));
    assert_eq!(back, there);
    let there = calculate_l2_norm_difference(50 * D, 4 * D, l4, 52 * D, 9 * D, l9);
    let back = calculate_l2_norm_difference(52 * D, 9 * D, l9, 50 * D, 4 * D, l4);
    assert_eq!(there, Ok(13_074_307_989));
    assert_eq!(back, there);
}

#[test]
fn l2_distance_of_a_density_to_itself() {
    let l4 = calculate_lambda(K, 4 * D).unwrap();
    assert_eq!(
        calculate_l2_norm_difference(50 * D, 4 * D, l4, 50 * D, 4 * D, l4),
        Ok(64_416_051)
    );
}

#[test]
fn l2_distance_names_its_failures() {
    assert_eq!(
        calculate_l2_norm_difference(0, 4 * D, u64::MAX, 0, 4 * D, 1),
        Err(CalcError::MulOverflow)
    );
    assert_eq!(
        calculate_l2_norm_difference(0, 0, D, 0, 4 * D, D),
        Err(CalcError::DivByZero)
    );
    assert_eq!(
        calculate_l2_norm_difference(0, u64::MAX, D, 0, u64::MAX, D),
        Err(CalcError::AddOverflow)
    );
    assert_eq!(
        calculate_l2_norm_difference(0, 4 * D, 4_000_000_000_000, 0, 4 * D, 1),
        Ok(1_502_262_947_970)
    );
}
