use distribution_market::fixed::{div_fixed, mul_fixed, DECIMALS};
use distribution_market::gaussian::calculate_lambda;
use distribution_market::lifecycle::{add_liquidity, remove_liquidity};
use distribution_market::pricing::calculate_trade_cost;
use distribution_market::records::Market;

const D: u64 = DECIMALS;

fn pool(total_backing: u64, total_lp_shares: u64, accumulated_fees: u64) -> Market {
    Market {
        creator: [1u8; 20],
        creation_time: 0,
        close_time: 100,
        k_norm: 0,
        b_backing: total_backing,
        current_mean: 50 * D,
        current_variance: 4 * D,
        total_lp_shares,
        total_backing,
        accumulated_fees,
        next_position_id: 0,
        total_volume: 0,
        status: 0,
        resolution_mean: 0,
        resolution_variance: 0,
    }
}

#[test]
fn multiplication_commutes_and_has_a_unit() {
    let samples = [0u64, 1, 7, D - 1, D, D + 1, 123_456_789_012, u64::MAX / 3, u64::MAX];
    for a in samples {
        assert_eq!(mul_fixed(a, D), Ok(a));
        assert_eq!(mul_fixed(a, 0), Ok(0));
        if a > 0 {
            assert_eq!(div_fixed(a, a), Ok(D));
        }
        for b in samples {
            assert_eq!(mul_fixed(a, b), mul_fixed(b, a));
        }
    }
}

#[test]
fn what_is_added_and_removed_at_once_never_grows() {
    let pools = [(100u64, 100u64), (3, 3), (7, 1000), (1000, 7), (10 * D, 3 * D), (1, 1)];
    let deposits = [1u64, 2, 3, 50, 99, 12_345];
    for (backing, shares) in pools {
        for deposit in deposits {
            let added = add_liquidity(true, Some(pool(backing, shares, 0)), deposit * D, 0).unwrap();
            if added.shares_minted == 0 {
                continue;
            }
            let removed =
                remove_liquidity(true, Some(added.market), added.shares_minted, added.new_balance).unwrap();
            assert!(removed.backing_returned <= deposit);
            assert!(removed.backing_portion <= deposit);
        }
    }
}

#[test]
fn with_fees_only_the_backing_part_is_bounded() {
    // half of the shares take half of backing and fees: more than was put in
    let added = add_liquidity(true, Some(pool(100, 100, 50)), 100 * D, 0).unwrap();
    assert_eq!(added.shares_minted, 100);
    let removed = remove_liquidity(true, Some(added.market), 100, 100).unwrap();
    assert_eq!(removed.backing_portion, 100);
    assert_eq!(removed.backing_returned, 125);
    assert_eq!(removed.market.accumulated_fees, 25);
}

#[test]
fn the_distance_of_a_move_is_the_distance_back() {
    let k = 10 * D;
    let beliefs = [(50 * D, 4 * D), (52 * D, 4 * D), (48 * D, 9 * D), (50 * D, D), (0, 1_000_000)];
    for (m1, v1) in beliefs {
        for (m2, v2) in beliefs {
            let there = calculate_trade_cost(k, m1, v1, m2, v2, D).map(|q| (q.0, q.1));
            let back = calculate_trade_cost(k, m2, v2, m1, v1, D).map(|q| (q.0, q.1));
            assert_eq!(there, back);
        }
    }
    assert!(calculate_lambda(k, 4 * D).is_ok());
}
