//! Fixed-point arithmetic for sample values.
//!
//! A number is an `i64` that counts units of 2^-32: `ONE` stands for 1.0.
//! Every operation saturates at the ends of the `i64` range, so no result is
//! ever undefined, and a division by zero yields zero.
use vstd::prelude::*;

verus! {

/// The number 1.0.
pub const ONE: i64 = 4294967296;

/// One half.
pub const HALF: i64 = 2147483648;

/// 1/64, the level below which a gain or an envelope counts as silent.
pub const SIXTY_FOURTH: i64 = 67108864;

/// `x` brought into the range of `i64`.
pub open spec fn sat(x: int) -> int {
    if x < i64::MIN as int {
        i64::MIN as int
    } else if x > i64::MAX as int {
        i64::MAX as int
    } else {
        x
    }
}

/// `x` brought into `[lo, hi]`; `lo` wins where the bounds cross.
pub open spec fn clamp_spec(x: int, lo: int, hi: int) -> int {
    if x < lo {
        lo
    } else if x > hi {
        hi
    } else {
        x
    }
}

/// The product of two fixed-point numbers, rounded down.
pub open spec fn mul_spec(a: int, b: int) -> int {
    sat((a * b) / (ONE as int))
}

/// The quotient of two fixed-point numbers, rounded down; zero where `b` is zero.
pub open spec fn div_spec(a: int, b: int) -> int {
    if b == 0 {
        0
    } else {
        sat((a * (ONE as int)) / b)
    }
}

/// The absolute value, saturating.
pub open spec fn abs_spec(a: int) -> int {
    if a < 0 {
        sat(-a)
    } else {
        a
    }
}

/// `x` wrapped into `[0, ONE)`.
pub open spec fn wrap_unit_spec(x: int) -> int {
    x % (ONE as int)
}

pub fn saturate(x: i128) -> (r: i64)
    ensures
        r as int == sat(x as int),
{
    if x < i64::MIN as i128 {
        i64::MIN
    } else if x > i64::MAX as i128 {
        i64::MAX
    } else {
        x as i64
    }
}

pub fn fx_add(a: i64, b: i64) -> (r: i64)
    ensures
        r as int == sat(a + b),
{
    saturate(a as i128 + b as i128)
}

pub fn fx_sub(a: i64, b: i64) -> (r: i64)
    ensures
        r as int == sat(a - b),
{
    saturate(a as i128 - b as i128)
}

pub fn fx_abs(a: i64) -> (r: i64)
    ensures
        r as int == abs_spec(a as int),
        r >= 0,
{
    if a < 0 {
        saturate(0 - (a as i128))
    } else {
        a
    }
}

pub proof fn lemma_product_bound(a: int, b: int)
    requires
        -0x8000_0000_0000_0000 <= a <= 0x8000_0000_0000_0000,
        -0x8000_0000_0000_0000 <= b <= 0x8000_0000_0000_0000,
    ensures
        -0x4000_0000_0000_0000_0000_0000_0000_0000 <= a * b
            <= 0x4000_0000_0000_0000_0000_0000_0000_0000,
{
    assert(-0x4000_0000_0000_0000_0000_0000_0000_0000 <= a * b
        <= 0x4000_0000_0000_0000_0000_0000_0000_0000) by (nonlinear_arith)
        requires
            -0x8000_0000_0000_0000 <= a <= 0x8000_0000_0000_0000,
            -0x8000_0000_0000_0000 <= b <= 0x8000_0000_0000_0000,
    ;
}

/// Euclidean division of wide integers; zero where the divisor is zero.
pub fn div_floor(n: i128, d: i128) -> (r: i128)
    requires
        i128::MIN < n,
    ensures
        d != 0 ==> r as int == (n as int) / (d as int),
        d == 0 ==> r == 0,
{
    if d == 0 {
        return 0;
    }
    proof {
        lemma_quotient_bound(n as int, d as int);
    }
    match n.checked_div_euclid(d) {
        Some(q) => q,
        None => 0,
    }
}

pub proof fn lemma_quotient_bound(n: int, d: int)
    requires
        d != 0,
    ensures
        n >= 0 ==> -n <= n / d <= n,
        n < 0 ==> n <= n / d <= -n,
{
    if d > 0 {
        vstd::arithmetic::div_mod::lemma_fundamental_div_mod(n, d);
        vstd::arithmetic::div_mod::lemma_mod_bound(n, d);
        assert(-n_abs(n) <= n / d <= n_abs(n)) by (nonlinear_arith)
            requires
                d >= 1,
                n == d * (n / d) + n % d,
                0 <= n % d < d,
        ;
    } else {
        let e = -d;
        vstd::arithmetic::div_mod::lemma_fundamental_div_mod(n, d);
        assert(0 <= n % d < e) by {
            vstd::arithmetic::div_mod::lemma_mod_bound(n, e);
            assert(n % d == n % e) by (nonlinear_arith)
                requires e == -d, d < 0;
        }
        assert(-n_abs(n) <= n / d <= n_abs(n)) by (nonlinear_arith)
            requires
                d <= -1,
                n == d * (n / d) + n % d,
                0 <= n % d < -d,
        ;
    }
}

pub open spec fn n_abs(n: int) -> int {
    if n < 0 {
        -n
    } else {
        n
    }
}

pub fn fx_mul(a: i64, b: i64) -> (r: i64)
    ensures
        r as int == mul_spec(a as int, b as int),
{
    proof {
        lemma_product_bound(a as int, b as int);
    }
    let p: i128 = (a as i128) * (b as i128);
    saturate(div_floor(p, ONE as i128))
}

pub fn fx_div(a: i64, b: i64) -> (r: i64)
    ensures
        r as int == div_spec(a as int, b as int),
{
    proof {
        lemma_product_bound(a as int, ONE as int);
    }
    let p: i128 = (a as i128) * (ONE as i128);
    saturate(div_floor(p, b as i128))
}

pub fn fx_clamp(x: i64, lo: i64, hi: i64) -> (r: i64)
    ensures
        r as int == clamp_spec(x as int, lo as int, hi as int),
{
    if x < lo {
        lo
    } else if x > hi {
        hi
    } else {
        x
    }
}

pub fn fx_min(a: i64, b: i64) -> (r: i64)
    ensures
        r == if a <= b { a } else { b },
{
    if a <= b {
        a
    } else {
        b
    }
}

pub fn fx_max(a: i64, b: i64) -> (r: i64)
    ensures
        r == if a >= b { a } else { b },
{
    if a >= b {
        a
    } else {
        b
    }
}

/// `x` wrapped into `[0, ONE)`, as a phase accumulator wraps.
pub fn wrap_unit(x: i64) -> (r: i64)
    ensures
        r as int == wrap_unit_spec(x as int),
        0 <= r < ONE,
{
    proof {
        vstd::arithmetic::div_mod::lemma_mod_bound(x as int, ONE as int);
    }
    match x.checked_rem_euclid(ONE) {
        Some(r) => r,
        None => 0,
    }
}

/// The whole number `n` as a fixed-point number.
pub fn fx_from_int(n: i32) -> (r: i64)
    ensures
        r as int == n as int * (ONE as int),
{
    assert(-0x8000_0000 * 0x1_0000_0000 <= n as int * 0x1_0000_0000 <= 0x8000_0000 * 0x1_0000_0000)
        by (nonlinear_arith)
        requires -0x8000_0000 <= n as int <= 0x8000_0000;
    (n as i64) * ONE
}

/// The share of the remaining way that a value covers in one tick, where
/// covering the way takes `seconds` and `numerator` scales the speed: the
/// number `numerator / (seconds * sample_rate)`, never below zero nor above
/// one. A duration or a sample rate that is not positive gives one, so that
/// the value arrives at once.
pub open spec fn rate_spec(numerator: int, seconds: int, sample_rate: int) -> int {
    if seconds <= 0 || sample_rate <= 0 || numerator < 0 {
        ONE as int
    } else {
        clamp_spec((numerator * (ONE as int)) / (seconds * sample_rate), 0, ONE as int)
    }
}

pub fn rate(numerator: i64, seconds: i64, sample_rate: u32) -> (r: i64)
    ensures
        r as int == rate_spec(numerator as int, seconds as int, sample_rate as int),
        0 <= r <= ONE,
{
    if seconds <= 0 || sample_rate == 0 || numerator < 0 {
        return ONE;
    }
    proof {
        lemma_product_bound(numerator as int, ONE as int);
        lemma_product_bound(seconds as int, sample_rate as int);
        assert(seconds as int * sample_rate as int > 0) by (nonlinear_arith)
            requires seconds as int > 0, sample_rate as int > 0;
    }
    let n: i128 = (numerator as i128) * (ONE as i128);
    let d: i128 = (seconds as i128) * (sample_rate as i128);
    let q = div_floor(n, d);
    if q < 0 {
        0
    } else if q > ONE as i128 {
        ONE
    } else {
        q as i64
    }
}

/// The part of a distance that a value covers in one tick: `fraction` of
/// the distance, rounded up, and never less than one unit nor more than the
/// distance, so that a value that has a way to go always moves and never
/// overshoots. Where there is no way to go, the part is nothing.
pub open spec fn share_spec(fraction: int, distance: int) -> int {
    if distance <= 0 {
        0
    } else {
        clamp_spec((fraction * distance + ONE - 1) / (ONE as int), 1, distance)
    }
}

pub fn share(fraction: i64, distance: i64) -> (r: i64)
    ensures
        r as int == share_spec(fraction as int, distance as int),
        distance > 0 ==> 1 <= r <= distance,
        distance <= 0 ==> r == 0,
{
    if distance <= 0 {
        return 0;
    }
    proof {
        lemma_product_bound(fraction as int, distance as int);
    }
    let p: i128 = (fraction as i128) * (distance as i128) + (ONE as i128 - 1);
    let q = div_floor(p, ONE as i128);
    if q < 1 {
        1
    } else if q > distance as i128 {
        distance
    } else {
        q as i64
    }
}

/// A whole share covers the whole distance: at a fraction of one the part
/// is the distance itself.
pub proof fn law_whole_share(distance: int)
    requires
        distance > 0,
    ensures
        share_spec(ONE as int, distance) == distance,
{
    let one = ONE as int;
    assert(one * distance + one - 1 == distance * one + (one - 1)) by (nonlinear_arith);
    vstd::arithmetic::div_mod::lemma_fundamental_div_mod_converse(
        one * distance + one - 1,
        one,
        distance,
        one - 1,
    );
}

/// The step of a linear ramp that takes `seconds` from end to end: one
/// over `seconds * sample_rate`, never less than one unit, so that the ramp
/// always moves.
pub open spec fn step_spec(seconds: int, sample_rate: int) -> int {
    let step = rate_spec(ONE as int, seconds, sample_rate);
    if step < 1 {
        1
    } else {
        step
    }
}

pub fn step(seconds: i64, sample_rate: u32) -> (r: i64)
    ensures
        r as int == step_spec(seconds as int, sample_rate as int),
        1 <= r <= ONE,
{
    let r = rate(ONE, seconds, sample_rate);
    if r < 1 {
        1
    } else {
        r
    }
}

/// The phase of an oscillator one tick later: advanced by
/// `frequency / sample_rate` and wrapped into `[0, 1)`. A sample rate of
/// zero leaves the phase where it is.
pub open spec fn next_phase_spec(phase: int, frequency: int, sample_rate: int) -> int {
    if sample_rate <= 0 {
        wrap_unit_spec(phase)
    } else {
        wrap_unit_spec(sat(phase + frequency / sample_rate))
    }
}

pub fn next_phase(phase: i64, frequency: i64, sample_rate: u32) -> (r: i64)
    ensures
        r as int == next_phase_spec(phase as int, frequency as int, sample_rate as int),
        0 <= r < ONE,
{
    if sample_rate == 0 {
        return wrap_unit(phase);
    }
    let step = div_floor(frequency as i128, sample_rate as i128);
    proof {
        lemma_quotient_bound(frequency as int, sample_rate as int);
    }
    wrap_unit(saturate(phase as i128 + step))
}

/// The phase of an oscillator after `ticks` ticks at one frequency.
pub open spec fn phase_after_spec(phase: int, frequency: int, sample_rate: int, ticks: nat) -> int
    decreases ticks,
{
    if ticks == 0 {
        phase
    } else {
        next_phase_spec(
            phase_after_spec(phase, frequency, sample_rate, (ticks - 1) as nat),
            frequency,
            sample_rate,
        )
    }
}

/// An oscillator at a constant frequency is a counter modulo one: after
/// `ticks` ticks its phase is the start plus `ticks` steps, wrapped. So it
/// is back at its start whenever the steps add up to a whole number of
/// cycles.
pub proof fn law_phase_accumulates(phase: int, frequency: int, sample_rate: int, ticks: nat)
    requires
        0 <= phase < ONE,
        sample_rate > 0,
        -0x4000_0000_0000_0000 <= frequency / sample_rate <= 0x4000_0000_0000_0000,
    ensures
        0 <= phase_after_spec(phase, frequency, sample_rate, ticks) < ONE,
        phase_after_spec(phase, frequency, sample_rate, ticks) == (phase + ticks * (frequency
            / sample_rate)) % (ONE as int),
        (ticks * (frequency / sample_rate)) % (ONE as int) == 0 ==> phase_after_spec(
            phase,
            frequency,
            sample_rate,
            ticks,
        ) == phase,
    decreases ticks,
{
    let one = ONE as int;
    let step = frequency / sample_rate;
    if ticks == 0 {
        assert(ticks * step == 0) by (nonlinear_arith)
            requires ticks == 0;
        vstd::arithmetic::div_mod::lemma_small_mod(phase as nat, one as nat);
    } else {
        law_phase_accumulates(phase, frequency, sample_rate, (ticks - 1) as nat);
        let before = phase_after_spec(phase, frequency, sample_rate, (ticks - 1) as nat);
        let sum = phase + (ticks - 1) * step;
        assert(before == sum % one);
        assert(sat(before + step) == before + step);
        vstd::arithmetic::div_mod::lemma_add_mod_noop(sum, step, one);
        vstd::arithmetic::div_mod::lemma_add_mod_noop(sum % one, step, one);
        vstd::arithmetic::div_mod::lemma_mod_twice(sum, one);
        assert(sum + step == phase + ticks * step) by (nonlinear_arith)
            requires sum == phase + (ticks - 1) * step;
        vstd::arithmetic::div_mod::lemma_mod_bound(phase + ticks * step, one);
        if (ticks * step) % one == 0 {
            vstd::arithmetic::div_mod::lemma_add_mod_noop(phase, ticks * step, one);
            vstd::arithmetic::div_mod::lemma_small_mod(phase as nat, one as nat);
            vstd::arithmetic::div_mod::lemma_mod_twice(phase, one);
        }
    }
}

/// A number of hertz as a share of the sample rate: `x / sample_rate`,
/// rounded down; zero where the sample rate is zero.
pub open spec fn over_rate_spec(x: int, sample_rate: int) -> int {
    if sample_rate <= 0 {
        0
    } else {
        x / sample_rate
    }
}

pub fn over_rate(x: i64, sample_rate: u32) -> (r: i64)
    ensures
        r as int == over_rate_spec(x as int, sample_rate as int),
{
    if sample_rate == 0 {
        return 0;
    }
    proof {
        lemma_quotient_bound(x as int, sample_rate as int);
        if x < 0 {
            vstd::arithmetic::div_mod::lemma_div_is_ordered(x as int, 0, sample_rate as int);
            vstd::arithmetic::div_mod::lemma_div_basics(sample_rate as int);
        }
    }
    saturate(div_floor(x as i128, sample_rate as i128))
}

} // verus!
