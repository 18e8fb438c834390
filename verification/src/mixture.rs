//! Beliefs as mixtures of Gaussians, the wider family beside the single
//! scaled Gaussian. Its arithmetic is plain 64-bit: where a step would
//! leave 64 bits, or divide by zero, there is no value.

use vstd::prelude::*;
use vstd::bytes::{lemma_auto_spec_u64_to_from_le_bytes, spec_u64_to_le_bytes};
use crate::bytes::{append_bytes, append_u64, zeros};
use crate::fixed::{floor_sqrt, integer_sqrt, sat_add, sat_sub, SQRT_2PI_FIXED};
use crate::gaussian::abs_diff;
use crate::records::Address;

verus! {

/// Scale of every value: nine fractional decimal digits.
pub const PRECISION: u64 = 1_000_000_000;

/// The square root of `PRECISION`, rounded down.
pub const SQRT_PRECISION: u64 = 31_622;

/// Arguments above this give `exp_negative_taylor` the value zero.
pub const EXP_CUTOFF: u64 = 5_000_000_000;

pub const KEY_PREFIX_MARKET: u8 = 0x10;

pub const KEY_PREFIX_POSITION: u8 = 0x20;

pub const KEY_PREFIX_STATS: u8 = 0x30;

/// One Gaussian of a mixture: where it lies, how wide it is, what it weighs.
#[derive(Clone, Copy, Debug, PartialEq, Eq, Structural)]
pub struct GaussianBasis {
    pub center: u64,
    pub width: u64,
    pub weight: u64,
}

/// A mixture of Gaussians, with the L2 norm that was computed for it.
#[derive(Clone, Debug, PartialEq, Eq)]
pub struct Distribution {
    pub bases: Vec<GaussianBasis>,
    pub l2_norm: u64,
}

/// A market whose belief is a mixture.
#[derive(Clone, Debug, PartialEq, Eq)]
pub struct MixtureMarket {
    pub id: u64,
    pub backing_amount: u64,
    pub norm_constant: u64,
    pub current_distribution: Distribution,
    pub total_liquidity: u64,
    pub participant_count: u64,
    pub volume: u64,
    pub created_at: u64,
    pub resolved: bool,
    pub outcome: u64,
}

/// A position on a mixture market.
#[derive(Clone, Debug, PartialEq, Eq)]
pub struct MixturePosition {
    pub id: u64,
    pub market_id: u64,
    pub owner: Address,
    pub distribution: Distribution,
    pub amount: u64,
    pub created_at: u64,
}

// ---------------------------------------------------------------------------
// Keys
// ---------------------------------------------------------------------------

/// A 32-byte key: a namespace byte, a kind byte, the payload, then zeros.
pub open spec fn tagged_key(namespace: u8, kind: u8, payload: Seq<u8>) -> Seq<u8> {
    seq![namespace, kind] + payload + zeros((30 - payload.len()) as nat)
}

fn build_key(namespace: u8, kind: u8, payload: &Vec<u8>) -> (key: [u8; 32])
    requires
        payload@.len() <= 30,
    ensures
        key@ == tagged_key(namespace, kind, payload@),
{
    let mut key = [0u8; 32];
    key[0] = namespace;
    key[1] = kind;
    let mut i: usize = 0;
    while i < payload.len()
        invariant
            i <= payload@.len() <= 30,
            key@[0] == namespace,
            key@[1] == kind,
            forall|j: int| 0 <= j < i ==> key@[2 + j] == payload@[j],
            forall|j: int| 2 + i <= j < 32 ==> key@[j] == 0u8,
        decreases payload@.len() - i,
    {
        key[2 + i] = payload[i];
        i += 1;
    }
    assert(key@ =~= tagged_key(namespace, kind, payload@));
    key
}

/// The key of mixture market `market_id`.
pub fn market_key(market_id: u64) -> (key: [u8; 32])
    ensures
        key@ == tagged_key(KEY_PREFIX_MARKET, 2, spec_u64_to_le_bytes(market_id)),
{
    let mut payload: Vec<u8> = Vec::new();
    append_u64(&mut payload, market_id);
    proof {
        lemma_auto_spec_u64_to_from_le_bytes();
    }
    build_key(KEY_PREFIX_MARKET, 2, &payload)
}

/// The key of mixture position `position_id`.
pub fn position_key(position_id: u64) -> (key: [u8; 32])
    ensures
        key@ == tagged_key(KEY_PREFIX_POSITION, 2, spec_u64_to_le_bytes(position_id)),
{
    let mut payload: Vec<u8> = Vec::new();
    append_u64(&mut payload, position_id);
    proof {
        lemma_auto_spec_u64_to_from_le_bytes();
    }
    build_key(KEY_PREFIX_POSITION, 2, &payload)
}

/// The key of the mark that `user` has traded on market `market_id`.
pub fn user_positions_key(user: Address, market_id: u64) -> (key: [u8; 32])
    ensures
        key@ == tagged_key(KEY_PREFIX_POSITION, 3, user@ + spec_u64_to_le_bytes(market_id)),
{
    let mut payload: Vec<u8> = Vec::new();
    append_bytes(&mut payload, user.as_slice());
    append_u64(&mut payload, market_id);
    proof {
        lemma_auto_spec_u64_to_from_le_bytes();
    }
    build_key(KEY_PREFIX_POSITION, 3, &payload)
}

/// The key of the statistics of market `market_id`.
pub fn market_stats_key(market_id: u64) -> (key: [u8; 32])
    ensures
        key@ == tagged_key(KEY_PREFIX_STATS, 2, spec_u64_to_le_bytes(market_id)),
{
    let mut payload: Vec<u8> = Vec::new();
    append_u64(&mut payload, market_id);
    proof {
        lemma_auto_spec_u64_to_from_le_bytes();
    }
    build_key(KEY_PREFIX_STATS, 2, &payload)
}

// ---------------------------------------------------------------------------
// Arithmetic
// ---------------------------------------------------------------------------

/// `a * b / d` in 64 bits: no value where the product leaves 64 bits or `d`
/// is zero.
pub open spec fn mul_div_spec(a: u64, b: u64, d: u64) -> Option<u64> {
    if a * b > u64::MAX || d == 0 {
        None
    } else {
        Some(((a * b) / (d as int)) as u64)
    }
}

/// `a * b / d` in 64 bits.
pub fn mul_div(a: u64, b: u64, d: u64) -> (r: Option<u64>)
    ensures
        r == mul_div_spec(a, b, d),
{
    match a.checked_mul(b) {
        None => None,
        Some(p) => if d == 0 {
            None
        } else {
            Some(p / d)
        },
    }
}

pub open spec fn exp_negative_taylor_spec(x: u64) -> Option<u64> {
    if x == 0 {
        Some(PRECISION)
    } else if x > EXP_CUTOFF {
        Some(0)
    } else {
        match mul_div_spec(x, x, PRECISION) {
            None => None,
            Some(x2) => match mul_div_spec(x2, x, PRECISION) {
                None => None,
                Some(x3) => match mul_div_spec(x3, x, PRECISION) {
                    None => None,
                    Some(x4) => Some(
                        sat_add(
                            sat_sub(
                                sat_add(sat_sub(PRECISION, x), (x2 / 2) as u64),
                                (x3 / 6) as u64,
                            ),
                            (x4 / 24) as u64,
                        ),
                    ),
                },
            },
        }
    }
}

/// `exp(-x)` by the first five terms of its series, `1 - x + x^2/2 - x^3/6
/// + x^4/24`, summed from the left and clamped at each step; zero above
/// `EXP_CUTOFF`.
pub fn exp_negative_taylor(x: u64) -> (r: Option<u64>)
    ensures
        r == exp_negative_taylor_spec(x),
{
    if x == 0 {
        return Some(PRECISION);
    }
    if x > EXP_CUTOFF {
        return Some(0);
    }
    let x2 = match mul_div(x, x, PRECISION) {
        Some(v) => v,
        None => {
            return None;
        },
    };
    let x3 = match mul_div(x2, x, PRECISION) {
        Some(v) => v,
        None => {
            return None;
        },
    };
    let x4 = match mul_div(x3, x, PRECISION) {
        Some(v) => v,
        None => {
            return None;
        },
    };
    Some(
        PRECISION.saturating_sub(x).saturating_add(x2 / 2).saturating_sub(x3 / 6).saturating_add(
            x4 / 24,
        ),
    )
}

/// `width sqrt(2 pi)`, the divisor of a Gaussian's peak.
pub open spec fn peak_divisor_spec(width: u64) -> Option<u64> {
    mul_div_spec(width, SQRT_2PI_FIXED, SQRT_PRECISION)
}

/// `(x - center)^2 / (2 variance)` for the variance `width^2`.
pub open spec fn basis_exponent_spec(basis: GaussianBasis, x: u64) -> Option<u64> {
    match mul_div_spec(basis.width, basis.width, PRECISION) {
        None => None,
        Some(variance) => if 2 * variance > u64::MAX {
            None
        } else {
            mul_div_spec(abs_diff(x, basis.center), abs_diff(x, basis.center), (2 * variance) as u64)
        },
    }
}

pub open spec fn evaluate_gaussian_spec(basis: GaussianBasis, x: u64) -> Option<u64> {
    match basis_exponent_spec(basis, x) {
        None => None,
        Some(exponent) => match exp_negative_taylor_spec(exponent) {
            None => None,
            Some(exp_value) => match peak_divisor_spec(basis.width) {
                None => None,
                Some(divisor) => mul_div_spec(basis.weight, exp_value, divisor),
            },
        },
    }
}

/// The value of one weighted Gaussian at `x`:
/// `weight exp(-(x - center)^2 / (2 width^2)) / (width sqrt(2 pi))`.
pub fn evaluate_gaussian(basis: &GaussianBasis, x: u64) -> (r: Option<u64>)
    ensures
        r == evaluate_gaussian_spec(*basis, x),
{
    let diff = if x > basis.center {
        x - basis.center
    } else {
        basis.center - x
    };
    let variance = match mul_div(basis.width, basis.width, PRECISION) {
        Some(v) => v,
        None => {
            return None;
        },
    };
    let two_variance = match variance.checked_mul(2) {
        Some(v) => v,
        None => {
            return None;
        },
    };
    let exponent = match mul_div(diff, diff, two_variance) {
        Some(v) => v,
        None => {
            return None;
        },
    };
    let exp_value = match exp_negative_taylor(exponent) {
        Some(v) => v,
        None => {
            return None;
        },
    };
    let divisor = match mul_div(basis.width, SQRT_2PI_FIXED, SQRT_PRECISION) {
        Some(v) => v,
        None => {
            return None;
        },
    };
    mul_div(basis.weight, exp_value, divisor)
}

/// The sum of the first `n` Gaussians of a mixture at `x`, clamped to 64
/// bits; no value where one of them has none.
pub open spec fn mixture_sum_spec(bases: Seq<GaussianBasis>, x: u64, n: nat) -> Option<u64>
    decreases n,
{
    if n == 0 {
        Some(0)
    } else {
        match mixture_sum_spec(bases, x, (n - 1) as nat) {
            None => None,
            Some(sum) => match evaluate_gaussian_spec(bases[n - 1], x) {
                None => None,
                Some(v) => Some(sat_add(sum, v)),
            },
        }
    }
}

proof fn lemma_mixture_sum_fails(bases: Seq<GaussianBasis>, x: u64, n: nat, m: nat)
    requires
        n <= m,
        mixture_sum_spec(bases, x, n) is None,
    ensures
        mixture_sum_spec(bases, x, m) is None,
    decreases m - n,
{
    if n < m {
        lemma_mixture_sum_fails(bases, x, n + 1, m);
    }
}

/// The value of a mixture at `x`: the sum of its Gaussians there.
pub fn evaluate_distribution_at(dist: &Distribution, x: u64) -> (r: Option<u64>)
    ensures
        r == mixture_sum_spec(dist.bases@, x, dist.bases@.len()),
{
    let mut value: u64 = 0;
    let mut i: usize = 0;
    while i < dist.bases.len()
        invariant
            i <= dist.bases@.len(),
            mixture_sum_spec(dist.bases@, x, i as nat) == Some(value),
        decreases dist.bases@.len() - i,
    {
        let gaussian_value = match evaluate_gaussian(&dist.bases[i], x) {
            Some(v) => v,
            None => {
                proof {
                    assert(mixture_sum_spec(dist.bases@, x, (i + 1) as nat) is None);
                    lemma_mixture_sum_fails(dist.bases@, x, (i + 1) as nat, dist.bases@.len());
                }
                return None;
            },
        };
        value = value.saturating_add(gaussian_value);
        i += 1;
    }
    Some(value)
}

/// The values of a mixture at the first `n` of `points`; no value where
/// the mixture has none at one of them.
pub open spec fn batch_spec(bases: Seq<GaussianBasis>, points: Seq<u64>, n: nat) -> Option<
    Seq<u64>,
>
    decreases n,
{
    if n == 0 {
        Some(Seq::empty())
    } else {
        match batch_spec(bases, points, (n - 1) as nat) {
            None => None,
            Some(values) => match mixture_sum_spec(bases, points[n - 1], bases.len()) {
                None => None,
                Some(v) => Some(values.push(v)),
            },
        }
    }
}

proof fn lemma_batch_fails(bases: Seq<GaussianBasis>, points: Seq<u64>, n: nat, m: nat)
    requires
        n <= m,
        batch_spec(bases, points, n) is None,
    ensures
        batch_spec(bases, points, m) is None,
    decreases m - n,
{
    if n < m {
        lemma_batch_fails(bases, points, n + 1, m);
    }
}

/// The values of a mixture at each of `points`, in their order.
pub fn batch_evaluate(dist: &Distribution, points: &Vec<u64>) -> (r: Option<Vec<u64>>)
    ensures
        r matches Some(values) ==> batch_spec(dist.bases@, points@, points@.len()) == Some(
            values@,
        ),
        r is None ==> batch_spec(dist.bases@, points@, points@.len()) is None,
{
    let mut values: Vec<u64> = Vec::new();
    let mut i: usize = 0;
    while i < points.len()
        invariant
            i <= points@.len(),
            batch_spec(dist.bases@, points@, i as nat) == Some(values@),
        decreases points@.len() - i,
    {
        let v = match evaluate_distribution_at(dist, points[i]) {
            Some(v) => v,
            None => {
                proof {
                    assert(batch_spec(dist.bases@, points@, (i + 1) as nat) is None);
                    lemma_batch_fails(dist.bases@, points@, (i + 1) as nat, points@.len());
                }
                return None;
            },
        };
        values.push(v);
        i += 1;
    }
    Some(values)
}

/// The sum of the two variances, `(w1^2 + w2^2) / PRECISION`.
pub open spec fn variance_sum_spec(g1: GaussianBasis, g2: GaussianBasis) -> Option<u64> {
    if g1.width * g1.width > u64::MAX || g2.width * g2.width > u64::MAX || g1.width * g1.width
        + g2.width * g2.width > u64::MAX {
        None
    } else {
        Some(((g1.width * g1.width + g2.width * g2.width) / (PRECISION as int)) as u64)
    }
}

/// `sqrt(2 pi v)` for a variance sum `v`.
pub open spec fn overlap_divisor_spec(var_sum: u64) -> Option<u64> {
    if var_sum * SQRT_2PI_FIXED > u64::MAX {
        None
    } else {
        match mul_div_spec((var_sum * SQRT_2PI_FIXED) as u64, SQRT_2PI_FIXED, PRECISION) {
            None => None,
            Some(t) => Some(floor_sqrt(t as int) as u64),
        }
    }
}

pub open spec fn gaussian_overlap_spec(g1: GaussianBasis, g2: GaussianBasis) -> Option<u64> {
    match variance_sum_spec(g1, g2) {
        None => None,
        Some(var_sum) => if 2 * var_sum > u64::MAX {
            None
        } else {
            match mul_div_spec(
                abs_diff(g1.center, g2.center),
                abs_diff(g1.center, g2.center),
                (2 * var_sum) as u64,
            ) {
                None => None,
                Some(exponent) => match exp_negative_taylor_spec(exponent) {
                    None => None,
                    Some(exp_value) => match overlap_divisor_spec(var_sum) {
                        None => None,
                        Some(divisor) => mul_div_spec(exp_value, PRECISION, divisor),
                    },
                },
            }
        },
    }
}

/// The overlap integral of two Gaussians,
/// `exp(-(c1 - c2)^2 / (2 (w1^2 + w2^2))) / sqrt(2 pi (w1^2 + w2^2))`.
pub fn gaussian_overlap(g1: &GaussianBasis, g2: &GaussianBasis) -> (r: Option<u64>)
    ensures
        r == gaussian_overlap_spec(*g1, *g2),
{
    let center_diff = if g1.center > g2.center {
        g1.center - g2.center
    } else {
        g2.center - g1.center
    };
    let s1 = match g1.width.checked_mul(g1.width) {
        Some(v) => v,
        None => {
            return None;
        },
    };
    let s2 = match g2.width.checked_mul(g2.width) {
        Some(v) => v,
        None => {
            return None;
        },
    };
    let var_sum = match s1.checked_add(s2) {
        Some(v) => v / PRECISION,
        None => {
            return None;
        },
    };
    let two_var_sum = match var_sum.checked_mul(2) {
        Some(v) => v,
        None => {
            return None;
        },
    };
    let exponent = match mul_div(center_diff, center_diff, two_var_sum) {
        Some(v) => v,
        None => {
            return None;
        },
    };
    let exp_value = match exp_negative_taylor(exponent) {
        Some(v) => v,
        None => {
            return None;
        },
    };
    let scaled = match var_sum.checked_mul(SQRT_2PI_FIXED) {
        Some(v) => v,
        None => {
            return None;
        },
    };
    let under_root = match mul_div(scaled, SQRT_2PI_FIXED, PRECISION) {
        Some(v) => v,
        None => {
            return None;
        },
    };
    let denominator = integer_sqrt(under_root);
    mul_div(exp_value, PRECISION, denominator)
}

/// The peak of one Gaussian, scaled: `weight / (width sqrt(2 pi))` times
/// `scale`.
pub open spec fn scaled_peak_spec(basis: GaussianBasis, scale: u64) -> Option<u64> {
    match peak_divisor_spec(basis.width) {
        None => None,
        Some(divisor) => match mul_div_spec(basis.weight, PRECISION, divisor) {
            None => None,
            Some(peak) => mul_div_spec(peak, scale, PRECISION),
        },
    }
}

fn scaled_peak(basis: &GaussianBasis, scale: u64) -> (r: Option<u64>)
    ensures
        r == scaled_peak_spec(*basis, scale),
{
    let divisor = match mul_div(basis.width, SQRT_2PI_FIXED, SQRT_PRECISION) {
        Some(v) => v,
        None => {
            return None;
        },
    };
    match mul_div(basis.weight, PRECISION, divisor) {
        None => None,
        Some(peak) => mul_div(peak, scale, PRECISION),
    }
}

/// The largest scaled peak among the first `n` Gaussians, and zero of none.
pub open spec fn max_peak_spec(bases: Seq<GaussianBasis>, scale: u64, n: nat) -> Option<u64>
    decreases n,
{
    if n == 0 {
        Some(0)
    } else {
        match max_peak_spec(bases, scale, (n - 1) as nat) {
            None => None,
            Some(m) => match scaled_peak_spec(bases[n - 1], scale) {
                None => None,
                Some(v) => Some(
                    if v > m {
                        v
                    } else {
                        m
                    },
                ),
            },
        }
    }
}

proof fn lemma_max_peak_fails(bases: Seq<GaussianBasis>, scale: u64, n: nat, m: nat)
    requires
        n <= m,
        max_peak_spec(bases, scale, n) is None,
    ensures
        max_peak_spec(bases, scale, m) is None,
    decreases m - n,
{
    if n < m {
        lemma_max_peak_fails(bases, scale, n + 1, m);
    }
}

/// The largest value that the scaled mixture takes at one of its centers,
/// each Gaussian taken alone.
pub fn get_distribution_max(bases: &Vec<GaussianBasis>, scale: u64) -> (r: Option<u64>)
    ensures
        r == max_peak_spec(bases@, scale, bases@.len()),
{
    let mut best: u64 = 0;
    let mut i: usize = 0;
    while i < bases.len()
        invariant
            i <= bases@.len(),
            max_peak_spec(bases@, scale, i as nat) == Some(best),
        decreases bases@.len() - i,
    {
        let v = match scaled_peak(&bases[i], scale) {
            Some(v) => v,
            None => {
                proof {
                    assert(max_peak_spec(bases@, scale, (i + 1) as nat) is None);
                    lemma_max_peak_fails(bases@, scale, (i + 1) as nat, bases@.len());
                }
                return None;
            },
        };
        if v > best {
            best = v;
        }
        i += 1;
    }
    Some(best)
}

pub open spec fn resolved_payout_spec(bases: Seq<GaussianBasis>, amount: u64, outcome: u64)
    -> Option<u64> {
    match mixture_sum_spec(bases, outcome, bases.len()) {
        None => None,
        Some(value) => mul_div_spec(amount, value, PRECISION),
    }
}

/// What a position pays once the outcome is known: its amount times the
/// value of its mixture at the outcome.
pub fn calculate_resolved_payout(position: &MixturePosition, outcome: u64) -> (r: Option<u64>)
    ensures
        r == resolved_payout_spec(position.distribution.bases@, position.amount, outcome),
{
    match evaluate_distribution_at(&position.distribution, outcome) {
        None => None,
        Some(value) => mul_div(position.amount, value, PRECISION),
    }
}

/// The product of two weights and the overlap of their Gaussians.
pub open spec fn weighted_overlap_spec(b1: GaussianBasis, b2: GaussianBasis) -> Option<u64> {
    match gaussian_overlap_spec(b1, b2) {
        None => None,
        Some(overlap) => if b1.weight * b2.weight > u64::MAX {
            None
        } else {
            mul_div_spec((b1.weight * b2.weight) as u64, overlap, PRECISION)
        },
    }
}

fn weighted_overlap(b1: &GaussianBasis, b2: &GaussianBasis) -> (r: Option<u64>)
    ensures
        r == weighted_overlap_spec(*b1, *b2),
{
    let overlap = match gaussian_overlap(b1, b2) {
        Some(v) => v,
        None => {
            return None;
        },
    };
    match b1.weight.checked_mul(b2.weight) {
        None => None,
        Some(w) => mul_div(w, overlap, PRECISION),
    }
}

/// The weighted overlaps of `b1` with the first `n` of `others`, summed;
/// a sum that leaves 64 bits is clamped where `clamp` holds and has no
/// value where it does not.
pub open spec fn overlap_row_spec(
    b1: GaussianBasis,
    others: Seq<GaussianBasis>,
    start: u64,
    clamp: bool,
    n: nat,
) -> Option<u64>
    decreases n,
{
    if n == 0 {
        Some(start)
    } else {
        match overlap_row_spec(b1, others, start, clamp, (n - 1) as nat) {
            None => None,
            Some(sum) => match weighted_overlap_spec(b1, others[n - 1]) {
                None => None,
                Some(v) => if sum + v > u64::MAX && !clamp {
                    None
                } else {
                    Some(sat_add(sum, v))
                },
            },
        }
    }
}

proof fn lemma_overlap_row_fails(
    b1: GaussianBasis,
    others: Seq<GaussianBasis>,
    start: u64,
    clamp: bool,
    n: nat,
    m: nat,
)
    requires
        n <= m,
        overlap_row_spec(b1, others, start, clamp, n) is None,
    ensures
        overlap_row_spec(b1, others, start, clamp, m) is None,
    decreases m - n,
{
    if n < m {
        lemma_overlap_row_fails(b1, others, start, clamp, n + 1, m);
    }
}

fn overlap_row(b1: &GaussianBasis, others: &Vec<GaussianBasis>, start: u64, clamp: bool) -> (r:
    Option<u64>)
    ensures
        r == overlap_row_spec(*b1, others@, start, clamp, others@.len()),
{
    let mut sum: u64 = start;
    let mut j: usize = 0;
    while j < others.len()
        invariant
            j <= others@.len(),
            overlap_row_spec(*b1, others@, start, clamp, j as nat) == Some(sum),
        decreases others@.len() - j,
    {
        let ghost before = j as nat;
        let v = match weighted_overlap(b1, &others[j]) {
            Some(v) => v,
            None => {
                proof {
                    assert(overlap_row_spec(*b1, others@, start, clamp, before + 1) is None);
                    lemma_overlap_row_fails(*b1, others@, start, clamp, before + 1, others@.len());
                }
                return None;
            },
        };
        sum = match sum.checked_add(v) {
            Some(s) => s,
            None => if clamp {
                u64::MAX
            } else {
                proof {
                    assert(overlap_row_spec(*b1, others@, start, clamp, before + 1) is None);
                    lemma_overlap_row_fails(*b1, others@, start, clamp, before + 1, others@.len());
                }
                return None;
            },
        };
        j += 1;
    }
    Some(sum)
}

/// The weighted overlaps of each of the first `n` of `firsts` with every
/// one of `others`, summed row by row.
pub open spec fn overlap_sum_spec(
    firsts: Seq<GaussianBasis>,
    others: Seq<GaussianBasis>,
    clamp: bool,
    n: nat,
) -> Option<u64>
    decreases n,
{
    if n == 0 {
        Some(0)
    } else {
        match overlap_sum_spec(firsts, others, clamp, (n - 1) as nat) {
            None => None,
            Some(sum) => overlap_row_spec(firsts[n - 1], others, sum, clamp, others.len()),
        }
    }
}

proof fn lemma_overlap_sum_fails(
    firsts: Seq<GaussianBasis>,
    others: Seq<GaussianBasis>,
    clamp: bool,
    n: nat,
    m: nat,
)
    requires
        n <= m,
        overlap_sum_spec(firsts, others, clamp, n) is None,
    ensures
        overlap_sum_spec(firsts, others, clamp, m) is None,
    decreases m - n,
{
    if n < m {
        lemma_overlap_sum_fails(firsts, others, clamp, n + 1, m);
    }
}

fn overlap_sum(firsts: &Vec<GaussianBasis>, others: &Vec<GaussianBasis>, clamp: bool) -> (r:
    Option<u64>)
    ensures
        r == overlap_sum_spec(firsts@, others@, clamp, firsts@.len()),
{
    let mut total: u64 = 0;
    let mut i: usize = 0;
    while i < firsts.len()
        invariant
            i <= firsts@.len(),
            overlap_sum_spec(firsts@, others@, clamp, i as nat) == Some(total),
        decreases firsts@.len() - i,
    {
        total = match overlap_row(&firsts[i], others, total, clamp) {
            Some(v) => v,
            None => {
                proof {
                    assert(overlap_sum_spec(firsts@, others@, clamp, (i + 1) as nat) is None);
                    lemma_overlap_sum_fails(firsts@, others@, clamp, (i + 1) as nat, firsts@.len());
                }
                return None;
            },
        };
        i += 1;
    }
    Some(total)
}

/// The overlap of two mixtures: the weighted overlaps of all pairs, summed.
pub fn distribution_overlap(dist1: &Distribution, dist2: &Distribution) -> (r: Option<u64>)
    ensures
        r == overlap_sum_spec(dist1.bases@, dist2.bases@, false, dist1.bases@.len()),
{
    overlap_sum(&dist1.bases, &dist2.bases, false)
}

pub open spec fn distribution_l2_norm_spec(bases: Seq<GaussianBasis>) -> Option<u64> {
    match overlap_sum_spec(bases, bases, true, bases.len()) {
        None => None,
        Some(norm_squared) => Some(floor_sqrt(norm_squared as int) as u64),
    }
}

/// The L2 norm of a mixture: the root of the weighted overlaps of all its
/// pairs, their sum clamped to 64 bits.
pub fn calculate_distribution_l2_norm(bases: &Vec<GaussianBasis>) -> (r: Option<u64>)
    ensures
        r == distribution_l2_norm_spec(bases@),
{
    match overlap_sum(bases, bases, true) {
        None => None,
        Some(norm_squared) => Some(integer_sqrt(norm_squared)),
    }
}

/// What a position can be left for: once the market is resolved, its
/// payout at the outcome, which can always be taken; before that, its
/// amount times the overlap of its mixture with the market's, which can
/// be taken where it is more than nothing.
pub open spec fn exit_quote_spec(
    bases: Seq<GaussianBasis>,
    amount: u64,
    market_bases: Seq<GaussianBasis>,
    resolved: bool,
    outcome: u64,
) -> Option<(u64, bool)> {
    if resolved {
        match resolved_payout_spec(bases, amount, outcome) {
            None => None,
            Some(payout) => Some((payout, true)),
        }
    } else {
        match overlap_sum_spec(bases, market_bases, false, bases.len()) {
            None => None,
            Some(overlap) => match mul_div_spec(amount, overlap, PRECISION) {
                None => None,
                Some(exit_value) => Some((exit_value, exit_value > 0)),
            },
        }
    }
}

/// The value at which `position` can leave `market`, and whether it can.
pub fn get_exit_quote(position: &MixturePosition, market: &MixtureMarket) -> (r: Option<
    (u64, bool),
>)
    ensures
        r == exit_quote_spec(
            position.distribution.bases@,
            position.amount,
            market.current_distribution.bases@,
            market.resolved,
            market.outcome,
        ),
{
    if market.resolved {
        return match calculate_resolved_payout(position, market.outcome) {
            None => None,
            Some(payout) => Some((payout, true)),
        };
    }
    let overlap = match distribution_overlap(&position.distribution, &market.current_distribution) {
        Some(v) => v,
        None => {
            return None;
        },
    };
    match mul_div(position.amount, overlap, PRECISION) {
        None => None,
        Some(exit_value) => Some((exit_value, exit_value > 0)),
    }
}

} // verus!
