//! Fixed-point kernel: every scalar is a `u64` that stands for `v / DECIMALS`.

use vstd::prelude::*;

verus! {

/// Scale of every fixed-point value: nine fractional decimal digits.
pub const DECIMALS: u64 = 1_000_000_000;

/// Wei per fixed-point unit.
pub const WEI_TO_FIXED: u64 = 1_000_000_000;

/// Outbound transfers are multiples of this many wei.
pub const MIN_TRANSFER_UNIT: u64 = 1_000_000;

pub const PI_FIXED: u64 = 3_141_592_654;

pub const SQRT_PI_FIXED: u64 = 1_772_453_851;

pub const SQRT_2PI_FIXED: u64 = 2_506_628_275;

pub const SQRT_2_FIXED: u64 = 1_414_213_562;

/// `floor(sqrt(DECIMALS))`, the factor that lifts a raw root to the fixed scale.
pub const SQRT_DECIMALS: u64 = 31_623;

/// Number of Taylor terms after the constant one that `exp_fixed` may add.
pub const TAYLOR_LAST_TERM: u64 = 14;

/// Arguments above this make `exp_fixed` saturate and `exp_neg_fixed` vanish.
pub const EXP_INPUT_MAX: u64 = 20_000_000_000;

/// A Taylor term below this ends the series.
pub const TAYLOR_TERM_FLOOR: u64 = 100;

/// Smallest variance a distribution may have.
pub const MIN_VARIANCE: u64 = 1_000_000;

/// The named failures of the arithmetic.
#[derive(Clone, Copy, Debug, PartialEq, Eq, Structural)]
pub enum CalcError {
    MulOverflow,
    AddOverflow,
    DivByZero,
    DivOverflow,
    WeiOverflow,
    VarianceTooSmall,
    BackingZero,
}

impl CalcError {
    pub open spec fn message_text(self) -> Seq<char> {
        match self {
            CalcError::MulOverflow => "Multiplication overflow"@,
            CalcError::AddOverflow => "Addition overflow"@,
            CalcError::DivByZero => "Division by zero"@,
            CalcError::DivOverflow => "Division overflow"@,
            CalcError::WeiOverflow => "Fixed to wei overflow"@,
            CalcError::VarianceTooSmall => "Variance too small"@,
            CalcError::BackingZero => "Backing is zero"@,
        }
    }

    /// The text under which the failure is reported.
    pub fn message(&self) -> (s: &'static str)
        ensures
            s@ == self.message_text(),
    {
        match self {
            CalcError::MulOverflow => "Multiplication overflow",
            CalcError::AddOverflow => "Addition overflow",
            CalcError::DivByZero => "Division by zero",
            CalcError::DivOverflow => "Division overflow",
            CalcError::WeiOverflow => "Fixed to wei overflow",
            CalcError::VarianceTooSmall => "Variance too small",
            CalcError::BackingZero => "Backing is zero",
        }
    }
}

/// What a fallible step yields, or `fallback` where it failed.
pub open spec fn value_or(r: Result<u64, CalcError>, fallback: u64) -> u64 {
    match r {
        Ok(v) => v,
        Err(_) => fallback,
    }
}

pub open spec fn sat_add(a: u64, b: u64) -> u64 {
    if a + b > u64::MAX {
        u64::MAX
    } else {
        (a + b) as u64
    }
}

pub open spec fn sat_sub(a: u64, b: u64) -> u64 {
    if a < b {
        0
    } else {
        (a - b) as u64
    }
}

pub open spec fn sat_mul(a: u64, b: u64) -> u64 {
    if a * b > u64::MAX {
        u64::MAX
    } else {
        (a * b) as u64
    }
}

/// Product of two `u64`, clamped to `u64::MAX`.
pub fn saturating_mul_u64(a: u64, b: u64) -> (r: u64)
    ensures
        r == sat_mul(a, b),
{
    assert(a * b <= 0xffff_ffff_ffff_ffff * 0xffff_ffff_ffff_ffff) by (nonlinear_arith)
        requires
            a <= 0xffff_ffff_ffff_ffff,
            b <= 0xffff_ffff_ffff_ffff,
    ;
    let wide: u128 = (a as u128) * (b as u128);
    if wide > u64::MAX as u128 {
        u64::MAX
    } else {
        wide as u64
    }
}

// ---------------------------------------------------------------------------
// Unit conversion
// ---------------------------------------------------------------------------

pub open spec fn wei_to_fixed_spec(wei: u64) -> u64 {
    wei / WEI_TO_FIXED
}

/// Whole fixed-point units in `wei`; the remainder is dropped.
pub fn wei_to_fixed(wei: u64) -> (r: Result<u64, CalcError>)
    ensures
        r == Ok::<u64, CalcError>(wei_to_fixed_spec(wei)),
{
    Ok(wei / WEI_TO_FIXED)
}

pub open spec fn fixed_to_wei_spec(fixed: u64) -> Result<u64, CalcError> {
    if fixed * WEI_TO_FIXED > u64::MAX {
        Err(CalcError::WeiOverflow)
    } else {
        Ok((fixed * WEI_TO_FIXED) as u64)
    }
}

/// `fixed` in wei, or `WeiOverflow` where that exceeds 64 bits.
pub fn fixed_to_wei(fixed: u64) -> (r: Result<u64, CalcError>)
    ensures
        r == fixed_to_wei_spec(fixed),
{
    match fixed.checked_mul(WEI_TO_FIXED) {
        Some(w) => Ok(w),
        None => Err(CalcError::WeiOverflow),
    }
}

pub open spec fn round_wei_spec(wei: u64) -> u64 {
    ((wei / MIN_TRANSFER_UNIT) * MIN_TRANSFER_UNIT) as u64
}

/// `wei` rounded down to a multiple of `MIN_TRANSFER_UNIT`.
pub fn round_wei_for_transfer(wei: u64) -> (r: u64)
    ensures
        r == round_wei_spec(wei),
        r <= wei,
        wei - r < MIN_TRANSFER_UNIT,
        r % MIN_TRANSFER_UNIT == 0,
{
    (wei / MIN_TRANSFER_UNIT) * MIN_TRANSFER_UNIT
}

/// The 32-byte little-endian amount that stands for `value`.
pub open spec fn u256_bytes_spec(value: u64) -> Seq<u8> {
    vstd::bytes::spec_u64_to_le_bytes(value) + Seq::new(24, |i: int| 0u8)
}

/// `value` widened to a 256-bit little-endian amount.
pub fn u256_bytes(value: u64) -> (r: [u8; 32])
    ensures
        r@ == u256_bytes_spec(value),
{
    let low = vstd::bytes::u64_to_le_bytes(value);
    let mut result = [0u8; 32];
    let mut i: usize = 0;
    while i < 8
        invariant
            i <= 8,
            low@.len() == 8,
            forall|j: int| 0 <= j < i ==> result@[j] == low@[j],
            forall|j: int| i <= j < 32 ==> result@[j] == 0u8,
        decreases 8 - i,
    {
        result[i] = low[i];
        i += 1;
    }
    assert(result@ =~= u256_bytes_spec(value));
    result
}

/// The low 64 bits of a 256-bit little-endian amount.
pub open spec fn u256_low_spec(word: Seq<u8>) -> u64 {
    vstd::bytes::spec_u64_from_le_bytes(word.subrange(0, 8))
}

/// The low 64 bits of a 256-bit little-endian amount; what lies above them
/// is not looked at.
pub fn u256_low_u64(word: &[u8; 32]) -> (r: u64)
    ensures
        r == u256_low_spec(word@),
{
    let mut low: Vec<u8> = Vec::new();
    let mut i: usize = 0;
    while i < 8
        invariant
            i <= 8,
            low@ == word@.subrange(0, i as int),
        decreases 8 - i,
    {
        low.push(word[i]);
        i += 1;
        assert(low@ =~= word@.subrange(0, i as int));
    }
    vstd::bytes::u64_from_le_bytes(low.as_slice())
}

/// An amount widened to 256 bits has itself as its low 64 bits.
pub proof fn lemma_u256_roundtrip(value: u64)
    ensures
        u256_low_spec(u256_bytes_spec(value)) == value,
{
    vstd::bytes::lemma_auto_spec_u64_to_from_le_bytes();
    assert(u256_bytes_spec(value).subrange(0, 8) =~= vstd::bytes::spec_u64_to_le_bytes(value));
}

// ---------------------------------------------------------------------------
// Multiply and divide
// ---------------------------------------------------------------------------

pub open spec fn mul_fixed_spec(a: u64, b: u64) -> Result<u64, CalcError> {
    let q = (a as int * b as int) / (DECIMALS as int);
    if q > u64::MAX {
        Err(CalcError::MulOverflow)
    } else {
        Ok(q as u64)
    }
}

/// `floor(a * b / DECIMALS)`, or `MulOverflow` where that exceeds 64 bits.
pub fn mul_fixed(a: u64, b: u64) -> (r: Result<u64, CalcError>)
    ensures
        r == mul_fixed_spec(a, b),
{
    assert(a * b <= 0xffff_ffff_ffff_ffff * 0xffff_ffff_ffff_ffff) by (nonlinear_arith)
        requires
            a <= 0xffff_ffff_ffff_ffff,
            b <= 0xffff_ffff_ffff_ffff,
    ;
    let wide: u128 = (a as u128) * (b as u128);
    let q: u128 = wide / (DECIMALS as u128);
    if q > u64::MAX as u128 {
        Err(CalcError::MulOverflow)
    } else {
        Ok(q as u64)
    }
}

pub open spec fn div_fixed_spec(a: u64, b: u64) -> Result<u64, CalcError> {
    if b == 0 {
        Err(CalcError::DivByZero)
    } else {
        let q = (a as int * DECIMALS as int) / (b as int);
        if q > u64::MAX {
            Err(CalcError::DivOverflow)
        } else {
            Ok(q as u64)
        }
    }
}

/// `floor(a * DECIMALS / b)`; `DivByZero` for `b == 0`, `DivOverflow` where the
/// quotient exceeds 64 bits.
pub fn div_fixed(a: u64, b: u64) -> (r: Result<u64, CalcError>)
    ensures
        r == div_fixed_spec(a, b),
{
    if b == 0 {
        return Err(CalcError::DivByZero);
    }
    assert(a * DECIMALS <= 0xffff_ffff_ffff_ffff * 1_000_000_000) by (nonlinear_arith)
        requires
            a <= 0xffff_ffff_ffff_ffff,
            DECIMALS == 1_000_000_000,
    ;
    let wide: u128 = (a as u128) * (DECIMALS as u128);
    let q: u128 = wide / (b as u128);
    if q > u64::MAX as u128 {
        Err(CalcError::DivOverflow)
    } else {
        Ok(q as u64)
    }
}

/// A product with zero is zero.
pub proof fn lemma_mul_fixed_zero(a: u64)
    ensures
        mul_fixed_spec(a, 0) == Ok::<u64, CalcError>(0),
        mul_fixed_spec(0, a) == Ok::<u64, CalcError>(0),
{
    assert(a as int * 0 == 0) by (nonlinear_arith);
    assert(0 * a as int == 0) by (nonlinear_arith);
}

/// `DECIMALS` stands for one: it is neutral in a product.
pub proof fn lemma_mul_fixed_one(a: u64)
    ensures
        mul_fixed_spec(a, DECIMALS) == Ok::<u64, CalcError>(a),
        mul_fixed_spec(DECIMALS, a) == Ok::<u64, CalcError>(a),
{
    vstd::arithmetic::div_mod::lemma_div_multiples_vanish(a as int, DECIMALS as int);
    assert(a as int * DECIMALS as int == DECIMALS as int * a as int) by (nonlinear_arith);
}

/// The order of the factors does not matter.
pub proof fn lemma_mul_fixed_commutes(a: u64, b: u64)
    ensures
        mul_fixed_spec(a, b) == mul_fixed_spec(b, a),
{
    assert(a as int * b as int == b as int * a as int) by (nonlinear_arith);
}

/// A number divided by itself is one.
pub proof fn lemma_div_fixed_self(a: u64)
    requires
        a > 0,
    ensures
        div_fixed_spec(a, a) == Ok::<u64, CalcError>(DECIMALS),
{
    assert(a as int * DECIMALS as int == DECIMALS as int * a as int) by (nonlinear_arith);
    vstd::arithmetic::div_mod::lemma_div_multiples_vanish(DECIMALS as int, a as int);
}

/// `mul_fixed`, with `fallback` in place of a failure.
pub fn mul_fixed_or(a: u64, b: u64, fallback: u64) -> (r: u64)
    ensures
        r == value_or(mul_fixed_spec(a, b), fallback),
{
    match mul_fixed(a, b) {
        Ok(v) => v,
        Err(_) => fallback,
    }
}

/// `div_fixed`, with `fallback` in place of a failure.
pub fn div_fixed_or(a: u64, b: u64, fallback: u64) -> (r: u64)
    ensures
        r == value_or(div_fixed_spec(a, b), fallback),
{
    match div_fixed(a, b) {
        Ok(v) => v,
        Err(_) => fallback,
    }
}

// ---------------------------------------------------------------------------
// Square roots
// ---------------------------------------------------------------------------

/// `r` is the integer square root of `x`, rounded down.
pub open spec fn is_floor_sqrt(r: int, x: int) -> bool {
    0 <= r && r * r <= x < (r + 1) * (r + 1)
}

pub open spec fn floor_sqrt(x: int) -> int {
    choose|r: int| is_floor_sqrt(r, x)
}

/// At most one number is the floor of a square root.
pub proof fn lemma_floor_sqrt_unique(a: int, b: int, x: int)
    requires
        is_floor_sqrt(a, x),
        is_floor_sqrt(b, x),
    ensures
        a == b,
{
    if a < b {
        assert((a + 1) * (a + 1) <= b * b) by (nonlinear_arith)
            requires
                0 <= a,
                a + 1 <= b,
        ;
    }
    if b < a {
        assert((b + 1) * (b + 1) <= a * a) by (nonlinear_arith)
            requires
                0 <= b,
                b + 1 <= a,
        ;
    }
}

/// A number that squares to just below `x` is `floor_sqrt(x)`.
pub proof fn lemma_floor_sqrt_is(r: int, x: int)
    requires
        is_floor_sqrt(r, x),
    ensures
        floor_sqrt(x) == r,
{
    let c = choose|c: int| is_floor_sqrt(c, x);
    lemma_floor_sqrt_unique(c, r, x);
}

/// One Newton step from an upper estimate `r` stays an upper estimate, and a
/// step that does not go down has found the root.
proof fn lemma_newton_step(r: int, x: int)
    requires
        r > 0,
        x >= 0,
        x < (r + 1) * (r + 1),
    ensures
        ({
            let y = (r + x / r) / 2;
            &&& 0 <= y
            &&& x < (y + 1) * (y + 1)
            &&& (y >= r ==> r * r <= x)
            &&& (x > 0 ==> y > 0)
        }),
{
    let q = x / r;
    let y = (r + q) / 2;
    vstd::arithmetic::div_mod::lemma_fundamental_div_mod(x, r);
    vstd::arithmetic::div_mod::lemma_mod_bound(x, r);
    assert(x == r * q + x % r);
    assert(0 <= x % r < r);
    assert(q >= 0) by (nonlinear_arith)
        requires
            x == r * q + x % r,
            0 <= x % r < r,
            x >= 0,
            r > 0,
    ;
    let s = r + q + 1;
    assert(s * s >= 4 * (r * q + r)) by (nonlinear_arith)
        requires
            s == r + q + 1,
    ;
    assert(2 * (y + 1) >= s);
    assert(4 * ((y + 1) * (y + 1)) >= s * s) by (nonlinear_arith)
        requires
            2 * (y + 1) >= s,
            s >= 0,
    ;
    assert(x < r * q + r);
    if y >= r {
        assert(q >= r);
        assert(r * q >= r * r) by (nonlinear_arith)
            requires
                q >= r,
                r > 0,
        ;
    }
    if x > 0 && y <= 0 {
        assert(r == 1 && q == 0);
        assert(r * q == 0) by (nonlinear_arith)
            requires
                q == 0,
        ;
    }
}

/// Integer square root by Newton's method, rounded down.
pub fn integer_sqrt(x: u64) -> (r: u64)
    ensures
        is_floor_sqrt(r as int, x as int),
        r == floor_sqrt(x as int),
{
    if x == 0 {
        proof {
            lemma_floor_sqrt_is(0, 0);
        }
        return 0;
    }
    let mut result: u64 = x;
    assert((x as int) < (x + 1) * (x + 1)) by (nonlinear_arith)
        requires
            x > 0,
    ;
    loop
        invariant_except_break
            0 < result <= x,
            (x as int) < (result + 1) * (result + 1),
        ensures
            is_floor_sqrt(result as int, x as int),
        decreases result,
    {
        let next: u128 = (result as u128 + (x / result) as u128) / 2;
        proof {
            lemma_newton_step(result as int, x as int);
        }
        if next >= result as u128 {
            break ;
        }
        result = next as u64;
    }
    proof {
        lemma_floor_sqrt_is(result as int, x as int);
    }
    result
}

/// A 64-bit number has a root below `2^32`.
pub proof fn lemma_floor_sqrt_bound(x: u64)
    ensures
        0 <= floor_sqrt(x as int) < 0x1_0000_0000,
        is_floor_sqrt(floor_sqrt(x as int), x as int),
{
    lemma_floor_sqrt_exists(x as int);
    let r = floor_sqrt(x as int);
    if r >= 0x1_0000_0000 {
        assert(r * r >= 0x1_0000_0000 * 0x1_0000_0000) by (nonlinear_arith)
            requires
                r >= 0x1_0000_0000,
        ;
    }
}

/// Every natural number has a floor square root.
pub proof fn lemma_floor_sqrt_exists(x: int)
    requires
        x >= 0,
    ensures
        is_floor_sqrt(floor_sqrt(x), x),
    decreases x,
{
    if x == 0 {
        assert(is_floor_sqrt(0, 0));
    } else {
        lemma_floor_sqrt_exists(x - 1);
        let p = floor_sqrt(x - 1);
        if (p + 1) * (p + 1) <= x {
            assert((p + 1) * (p + 1) == x);
            assert(x < (p + 2) * (p + 2)) by (nonlinear_arith)
                requires
                    (p + 1) * (p + 1) == x,
                    p >= 0,
            ;
            assert(is_floor_sqrt(p + 1, x));
        } else {
            assert(p * p <= x) by (nonlinear_arith)
                requires
                    p * p <= x - 1,
            ;
            assert(is_floor_sqrt(p, x));
        }
    }
}

pub open spec fn sqrt_fixed_spec(x: u64) -> u64 {
    (floor_sqrt(x as int) * SQRT_DECIMALS) as u64
}

/// Square root at the fixed scale: the raw root times `floor(sqrt(DECIMALS))`.
pub fn sqrt_fixed(x: u64) -> (r: u64)
    ensures
        r == sqrt_fixed_spec(x),
        r == floor_sqrt(x as int) * SQRT_DECIMALS,
        r <= 0xffff_ffff * 31_623,
{
    let raw = integer_sqrt(x);
    proof {
        lemma_floor_sqrt_bound(x);
    }
    raw * SQRT_DECIMALS
}

// ---------------------------------------------------------------------------
// Exponential
// ---------------------------------------------------------------------------

/// The `n`-th term of the series for `exp(x)`, each step rounded down.
pub open spec fn taylor_term(x: nat, n: nat) -> nat
    decreases n,
{
    if n == 0 {
        DECIMALS as nat
    } else {
        taylor_term(x, (n - 1) as nat) * x / (DECIMALS as nat) / n
    }
}

/// The sum of the terms `0 ..= n`.
pub open spec fn taylor_sum(x: nat, n: nat) -> nat
    decreases n,
{
    if n == 0 {
        taylor_term(x, 0)
    } else {
        taylor_sum(x, (n - 1) as nat) + taylor_term(x, n)
    }
}

/// Index of the last term that is added, looking from term `n` on: the first
/// one below `TAYLOR_TERM_FLOOR`, and `TAYLOR_LAST_TERM` at the latest.
pub open spec fn taylor_last(x: nat, n: nat) -> nat
    decreases TAYLOR_LAST_TERM - n,
{
    if n >= TAYLOR_LAST_TERM || taylor_term(x, n) < TAYLOR_TERM_FLOOR {
        n
    } else {
        taylor_last(x, n + 1)
    }
}

pub open spec fn exp_fixed_spec(x: u64) -> u64 {
    if x == 0 {
        DECIMALS
    } else if x > EXP_INPUT_MAX {
        u64::MAX
    } else {
        taylor_sum(x as nat, taylor_last(x as nat, 1)) as u64
    }
}

/// A bound on the `n`-th term for arguments up to `EXP_INPUT_MAX`.
pub open spec fn taylor_term_cap(n: nat) -> nat {
    if n == 0 {
        1_000_000_000
    } else if n == 1 {
        20_000_000_000
    } else if n == 2 {
        200_000_000_000
    } else if n == 3 {
        1_333_333_333_333
    } else if n == 4 {
        6_666_666_666_665
    } else if n == 5 {
        26_666_666_666_660
    } else if n == 6 {
        88_888_888_888_866
    } else if n == 7 {
        253_968_253_968_188
    } else if n == 8 {
        634_920_634_920_470
    } else if n == 9 {
        1_410_934_744_267_711
    } else if n == 10 {
        2_821_869_488_535_422
    } else if n == 11 {
        5_130_671_797_337_130
    } else if n == 12 {
        8_551_119_662_228_550
    } else if n == 13 {
        13_155_568_711_120_846
    } else {
        18_793_669_587_315_494
    }
}

proof fn lemma_taylor_cap_step(q: nat, n: nat)
    requires
        1 <= n <= 14,
        q <= 20 * taylor_term_cap((n - 1) as nat),
    ensures
        q / n <= taylor_term_cap(n),
{
    if n == 1 {
    } else if n == 2 {
    } else if n == 3 {
    } else if n == 4 {
    } else if n == 5 {
    } else if n == 6 {
    } else if n == 7 {
    } else if n == 8 {
    } else if n == 9 {
    } else if n == 10 {
    } else if n == 11 {
    } else if n == 12 {
    } else if n == 13 {
    } else {
    }
}

proof fn lemma_scaled_product_bound(t: nat, x: nat)
    requires
        x <= EXP_INPUT_MAX,
    ensures
        t * x / (DECIMALS as nat) <= 20 * t,
{
    assert(t * x <= t * 20_000_000_000) by (nonlinear_arith)
        requires
            x <= 20_000_000_000,
    ;
    assert(t * 20_000_000_000 == (20 * t) * 1_000_000_000) by (nonlinear_arith);
    vstd::arithmetic::div_mod::lemma_div_is_ordered(
        (t * x) as int,
        ((20 * t) * 1_000_000_000) as int,
        1_000_000_000,
    );
    vstd::arithmetic::div_mod::lemma_div_multiples_vanish((20 * t) as int, 1_000_000_000);
}

/// Terms and partial sums stay far below 64 bits while `x <= EXP_INPUT_MAX`.
pub proof fn lemma_taylor_bounds(x: nat, n: nat)
    requires
        x <= EXP_INPUT_MAX,
        n <= 14,
    ensures
        taylor_term(x, n) <= taylor_term_cap(n),
        taylor_sum(x, n) <= (n + 1) * 18_793_669_587_315_494,
        taylor_sum(x, n) >= DECIMALS,
    decreases n,
{
    if n > 0 {
        lemma_taylor_bounds(x, (n - 1) as nat);
        let t = taylor_term(x, (n - 1) as nat);
        lemma_scaled_product_bound(t, x);
        lemma_taylor_cap_step(t * x / (DECIMALS as nat), n);
    }
}

/// `exp(x)` by its Taylor series: the constant term and up to fourteen more,
/// ending after the first term below `TAYLOR_TERM_FLOOR`; `u64::MAX` for
/// arguments above `EXP_INPUT_MAX`.
pub fn exp_fixed(x: u64) -> (r: u64)
    ensures
        r == exp_fixed_spec(x),
        x <= EXP_INPUT_MAX ==> DECIMALS <= r <= 15 * 18_793_669_587_315_494,
{
    if x == 0 {
        return DECIMALS;
    }
    if x > EXP_INPUT_MAX {
        return u64::MAX;
    }
    let mut result: u64 = DECIMALS;
    let mut term: u64 = DECIMALS;
    let mut i: u64 = 1;
    loop
        invariant_except_break
            1 <= i <= 14,
            0 < x <= EXP_INPUT_MAX,
            term == taylor_term(x as nat, (i - 1) as nat),
            result == taylor_sum(x as nat, (i - 1) as nat),
            taylor_last(x as nat, 1) == taylor_last(x as nat, i as nat),
        ensures
            result == taylor_sum(x as nat, taylor_last(x as nat, 1)),
            DECIMALS <= result <= 15 * 18_793_669_587_315_494,
        decreases 15 - i,
    {
        proof {
            lemma_taylor_bounds(x as nat, (i - 1) as nat);
            lemma_taylor_bounds(x as nat, i as nat);
            lemma_scaled_product_bound(term as nat, x as nat);
        }
        let scaled = match mul_fixed(term, x) {
            Ok(v) => v,
            Err(_) => {
                assert(false);
                break ;
            },
        };
        term = scaled / i;
        result = result + term;
        if term < TAYLOR_TERM_FLOOR || i == TAYLOR_LAST_TERM {
            break ;
        }
        i = i + 1;
    }
    result
}

pub open spec fn exp_neg_fixed_spec(x: u64) -> u64 {
    if x == 0 {
        DECIMALS
    } else if x > EXP_INPUT_MAX {
        0
    } else {
        ((DECIMALS as int * DECIMALS as int) / (exp_fixed_spec(x) as int)) as u64
    }
}

/// `exp(-x)` as `DECIMALS / exp(x)`; zero for arguments above `EXP_INPUT_MAX`.
pub fn exp_neg_fixed(x: u64) -> (r: u64)
    ensures
        r == exp_neg_fixed_spec(x),
        r <= DECIMALS,
{
    if x == 0 {
        return DECIMALS;
    }
    if x > EXP_INPUT_MAX {
        return 0;
    }
    let exp_x = exp_fixed(x);
    proof {
        vstd::arithmetic::div_mod::lemma_div_is_ordered_by_denominator(
            DECIMALS as int * DECIMALS as int,
            DECIMALS as int,
            exp_x as int,
        );
    }
    match div_fixed(DECIMALS, exp_x) {
        Ok(v) => v,
        Err(_) => 0,
    }
}

// ---------------------------------------------------------------------------
// Error function
// ---------------------------------------------------------------------------

pub const ERF_P: u64 = 327_591_100;

pub const ERF_A1: u64 = 254_829_592;

pub const ERF_A2: u64 = 284_496_736;

pub const ERF_A3: u64 = 1_421_413_741;

pub const ERF_A4: u64 = 1_453_152_027;

pub const ERF_A5: u64 = 1_061_405_429;

/// `t = 1 / (1 + p x)` of the rational approximation.
pub open spec fn erf_t(x: u64) -> u64 {
    value_or(
        div_fixed_spec(DECIMALS, sat_add(DECIMALS, value_or(mul_fixed_spec(ERF_P, x), u64::MAX))),
        0,
    )
}

/// The polynomial `a1 t - a2 t^2 + a3 t^3 - a4 t^4 + a5 t^5`, summed from the
/// left with every partial sum clamped to the range of `u64`.
pub open spec fn erf_poly(t: u64) -> u64 {
    let t2 = value_or(mul_fixed_spec(t, t), 0);
    let t3 = value_or(mul_fixed_spec(t2, t), 0);
    let t4 = value_or(mul_fixed_spec(t3, t), 0);
    let t5 = value_or(mul_fixed_spec(t4, t), 0);
    let s1 = value_or(mul_fixed_spec(ERF_A1, t), 0);
    let s2 = sat_sub(s1, value_or(mul_fixed_spec(ERF_A2, t2), 0));
    let s3 = sat_add(s2, value_or(mul_fixed_spec(ERF_A3, t3), 0));
    let s4 = sat_sub(s3, value_or(mul_fixed_spec(ERF_A4, t4), 0));
    sat_add(s4, value_or(mul_fixed_spec(ERF_A5, t5), 0))
}

pub open spec fn erf_fixed_spec(x: u64) -> u64 {
    let poly = erf_poly(erf_t(x));
    let x_squared = value_or(mul_fixed_spec(x, x), u64::MAX);
    sat_sub(DECIMALS, value_or(mul_fixed_spec(poly, exp_neg_fixed_spec(x_squared)), 0))
}

/// `x` lies so far out that `exp(-x^2)` has vanished.
pub open spec fn in_erf_tail(x: u64) -> bool {
    x as int * x as int / (DECIMALS as int) > EXP_INPUT_MAX
}

/// The two ends of the error function: it is zero at zero, one in the
/// tail, and never above one.
pub proof fn lemma_erf_ends(x: u64)
    ensures
        erf_fixed_spec(0) == 0,
        erf_fixed_spec(x) <= DECIMALS,
        in_erf_tail(x) ==> erf_fixed_spec(x) == DECIMALS,
{
    lemma_mul_fixed_zero(ERF_P);
    lemma_mul_fixed_zero(0);
    lemma_div_fixed_self(DECIMALS);
    lemma_mul_fixed_one(DECIMALS);
    lemma_mul_fixed_one(ERF_A1);
    lemma_mul_fixed_one(ERF_A2);
    lemma_mul_fixed_one(ERF_A3);
    lemma_mul_fixed_one(ERF_A4);
    lemma_mul_fixed_one(ERF_A5);
    assert(erf_t(0) == DECIMALS);
    assert(erf_poly(DECIMALS) == ERF_A5);
    assert(exp_neg_fixed_spec(0) == DECIMALS);
    if in_erf_tail(x) {
        assert(value_or(mul_fixed_spec(x, x), u64::MAX) > EXP_INPUT_MAX);
        lemma_mul_fixed_zero(erf_poly(erf_t(x)));
    }
}

/// The error function rises from its least value, at zero, to its
/// greatest, in the tail: no value lies below the one at zero, and none
/// above the one at a point of the tail. (In between, rounding can make
/// it step down by a unit.)
pub proof fn lemma_erf_between_its_ends(x: u64, far: u64)
    requires
        in_erf_tail(far),
    ensures
        erf_fixed_spec(0) <= erf_fixed_spec(x) <= erf_fixed_spec(far),
        erf_fixed_spec(far) == DECIMALS,
{
    lemma_erf_ends(x);
    lemma_erf_ends(far);
}

/// Every point from 4.472135956 on lies in the tail.
pub proof fn lemma_erf_tail_starts(x: u64)
    requires
        x >= 4_472_135_956,
    ensures
        in_erf_tail(x),
{
    assert(x as int * x as int >= 4_472_135_956 * 4_472_135_956) by (nonlinear_arith)
        requires
            x >= 4_472_135_956,
    ;
    vstd::arithmetic::div_mod::lemma_div_is_ordered(
        4_472_135_956int * 4_472_135_956int,
        x as int * x as int,
        DECIMALS as int,
    );
}

/// The error function on `x >= 0` by the five-term rational approximation of
/// Abramowitz and Stegun: `1 - poly(t) exp(-x^2)`.
pub fn erf_fixed(x: u64) -> (r: u64)
    ensures
        r == erf_fixed_spec(x),
        r <= DECIMALS,
        x == 0 ==> r == 0,
        in_erf_tail(x) ==> r == DECIMALS,
{
    let px = mul_fixed_or(ERF_P, x, u64::MAX);
    let t = div_fixed_or(DECIMALS, DECIMALS.saturating_add(px), 0);
    let t2 = mul_fixed_or(t, t, 0);
    let t3 = mul_fixed_or(t2, t, 0);
    let t4 = mul_fixed_or(t3, t, 0);
    let t5 = mul_fixed_or(t4, t, 0);
    let poly = mul_fixed_or(ERF_A1, t, 0).saturating_sub(mul_fixed_or(ERF_A2, t2, 0)).saturating_add(
        mul_fixed_or(ERF_A3, t3, 0),
    ).saturating_sub(mul_fixed_or(ERF_A4, t4, 0)).saturating_add(mul_fixed_or(ERF_A5, t5, 0));
    let x_squared = mul_fixed_or(x, x, u64::MAX);
    let exp_neg_x2 = exp_neg_fixed(x_squared);
    let result = mul_fixed_or(poly, exp_neg_x2, 0);
    proof {
        lemma_erf_ends(x);
    }
    DECIMALS.saturating_sub(result)
}

} // verus!
