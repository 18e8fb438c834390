use distribution_market::fixed::{CalcError, DECIMALS};
use distribution_market::records::Position;
use distribution_market::valuation::{calculate_position_value, median_of_three};

const D: u64 = DECIMALS;
const K: u64 = 10 * D;

fn position(from_mean: u64, from_variance: u64, to_mean: u64, to_variance: u64, size: u64) -> Position {
    Position {
        position_id: 3,
        trader: [9u8; 20],
        market_id: 0,
        from_mean,
        from_variance,
        to_mean,
        to_variance,
        size,
        collateral_locked: 0,
        cost_basis: 12_560_783_609,
        is_open: 1,
        opened_at: 1,
        closed_at: 0,
        exit_value: 0,
        fees_paid: 37_569_641,
        realized_pnl: 0,
        claimed: 0,
    }
}

#[test]
fn median_is_the_middle_value() {
    assert_eq!(median_of_three(1, 2, 3), 2);
    assert_eq!(median_of_three(3, 2, 1), 2);
    assert_eq!(median_of_three(2, 3, 1), 2);
    assert_eq!(median_of_three(2, 1, 3), 2);
    assert_eq!(median_of_three(1, 3, 2), 2);
    assert_eq!(median_of_three(3, 1, 2), 2);
    assert_eq!(median_of_three(5, 5, 1), 5);
    assert_eq!(median_of_three(1, 5, 5), 5);
    assert_eq!(median_of_three(7, 7, 7), 7);
    assert_eq!(median_of_three(10 * D, 5 * D, 7 * D), 7 * D);
}

#[test]
fn value_where_the_market_has_arrived() {
    let p = position(50 * D, 4 * D, 52 * D, 4 * D, D);
    assert_eq!(calculate_position_value(&p, 52 * D, 4 * D, K), Ok(78_470_477_426));
}

#[test]
fn value_is_never_negative() {
    let p = position(50 * D, 4 * D, 52 * D, 4 * D, D);
    assert_eq!(calculate_position_value(&p, 50 * D, 4 * D, K), Ok(0));
    assert_eq!(calculate_position_value(&p, 51 * D, 4 * D, K), Ok(0));
}

#[test]
fn value_under_other_beliefs() {
    let p = position(50 * D, 4 * D, 52 * D, 4 * D, D);
    assert_eq!(calculate_position_value(&p, 54 * D, 4 * D, K), Ok(145_606_466_396));
    assert_eq!(calculate_position_value(&p, 53 * D, 9 * D, K), Ok(106_313_513_459));
    assert_eq!(calculate_position_value(&p, 52 * D, D, K), Ok(73_917_145_282));
    let q = position(50 * D, 4 * D, 48 * D, 9 * D, 2 * D);
    assert_eq!(calculate_position_value(&q, 48 * D, 9 * D, K), Ok(348_153_873_882));
    assert_eq!(calculate_position_value(&q, 49 * D, 4 * D, K), Ok(136_748_803_986));
}

#[test]
fn value_scales_with_the_norm() {
    let p = position(50 * D, 4 * D, 52 * D, 4 * D, D);
    assert_eq!(calculate_position_value(&p, 52 * D, 4 * D, D), Ok(784_704_774));
    assert_eq!(calculate_position_value(&p, 52 * D, 4 * D, 100), Ok(0));
    assert_eq!(calculate_position_value(&p, 52 * D, 4 * D, 0), Ok(0));
    assert_eq!(calculate_position_value(&p, 52 * D, 4 * D, 1 << 40), Ok(948_649_862_346_847));
}

#[test]
fn value_names_its_failures() {
    let p = position(50 * D, 4 * D, 52 * D, 4 * D, D);
    assert_eq!(calculate_position_value(&p, 52 * D, 5, K), Err(CalcError::VarianceTooSmall));
    assert_eq!(calculate_position_value(&p, 52 * D, 4 * D, u64::MAX), Err(CalcError::MulOverflow));
    assert_eq!(calculate_position_value(&p, 52 * D, 4 * D, 1 << 50), Err(CalcError::MulOverflow));
    let bad_from = position(50 * D, 1, 52 * D, 4 * D, D);
    assert_eq!(calculate_position_value(&bad_from, 52 * D, 4 * D, K), Err(CalcError::VarianceTooSmall));
    let bad_to = position(50 * D, 4 * D, 52 * D, 1, D);
    assert_eq!(calculate_position_value(&bad_to, 52 * D, 4 * D, K), Err(CalcError::VarianceTooSmall));
}
