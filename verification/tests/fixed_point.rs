use synth_language::fixed::{
    fx_abs, fx_add, fx_clamp, fx_div, fx_from_int, fx_max, fx_min, fx_mul, fx_sub, next_phase,
    rate, saturate, wrap_unit, HALF, ONE, SIXTY_FOURTH,
};

#[test]
fn constants_are_powers_of_two() {
    assert_eq!(ONE, 1i64 << 32);
    assert_eq!(HALF, ONE / 2);
    assert_eq!(SIXTY_FOURTH, ONE / 64);
}

#[test]
fn add_and_sub_saturate() {
    assert_eq!(fx_add(ONE, ONE), 2 * ONE);
    assert_eq!(fx_add(i64::MAX, 1), i64::MAX);
    assert_eq!(fx_add(i64::MIN, -1), i64::MIN);
    assert_eq!(fx_sub(ONE, 3 * ONE), -2 * ONE);
    assert_eq!(fx_sub(i64::MIN, 1), i64::MIN);
    assert_eq!(fx_sub(i64::MAX, -1), i64::MAX);
    assert_eq!(saturate(1i128 << 70), i64::MAX);
    assert_eq!(saturate(-(1i128 << 70)), i64::MIN);
    assert_eq!(saturate(-5), -5);
}

#[test]
fn abs_saturates_at_the_smallest_number() {
    assert_eq!(fx_abs(-ONE), ONE);
    assert_eq!(fx_abs(ONE), ONE);
    assert_eq!(fx_abs(0), 0);
    assert_eq!(fx_abs(i64::MIN), i64::MAX);
}

#[test]
fn mul_rounds_down_and_saturates() {
    assert_eq!(fx_mul(HALF, HALF), ONE / 4);
    assert_eq!(fx_mul(-ONE, HALF), -HALF);
    assert_eq!(fx_mul(3 * ONE, 7 * ONE), 21 * ONE);
    assert_eq!(fx_mul(3, 1), 0);
    assert_eq!(fx_mul(-1, 1), -1);
    assert_eq!(fx_mul(i64::MAX, i64::MAX), i64::MAX);
    assert_eq!(fx_mul(i64::MIN, i64::MAX), i64::MIN);
    assert_eq!(fx_mul(i64::MIN, i64::MIN), i64::MAX);
}

#[test]
fn div_rounds_down_and_guards_zero() {
    assert_eq!(fx_div(ONE, 2 * ONE), HALF);
    assert_eq!(fx_div(6 * ONE, 3 * ONE), 2 * ONE);
    assert_eq!(fx_div(-ONE, 3 * ONE), -1431655766);
    assert_eq!(fx_div(ONE, 3 * ONE), 1431655765);
    assert_eq!(fx_div(ONE, 0), 0);
    assert_eq!(fx_div(i64::MAX, 1), i64::MAX);
    assert_eq!(fx_div(i64::MIN, 1), i64::MIN);
}

#[test]
fn clamp_min_max() {
    assert_eq!(fx_clamp(5, 0, 3), 3);
    assert_eq!(fx_clamp(-5, 0, 3), 0);
    assert_eq!(fx_clamp(2, 0, 3), 2);
    assert_eq!(fx_min(2, 3), 2);
    assert_eq!(fx_max(2, 3), 3);
    assert_eq!(fx_from_int(-3), -3 * ONE);
    assert_eq!(fx_from_int(i32::MAX), (i32::MAX as i64) * ONE);
}

#[test]
fn wrap_unit_wraps_into_zero_to_one() {
    // minus 1.2 wraps to 0.8
    assert_eq!(wrap_unit(-5153960755), 3435973837);
    assert_eq!(wrap_unit(ONE), 0);
    assert_eq!(wrap_unit(ONE + 5), 5);
    assert_eq!(wrap_unit(-1), ONE - 1);
    assert_eq!(wrap_unit(0), 0);
    assert_eq!(wrap_unit(i64::MIN), 0);
    assert_eq!(wrap_unit(i64::MAX), ONE - 1);
}

#[test]
fn rate_is_numerator_over_seconds_times_sample_rate() {
    // one second at 44100 samples a second: 1/44100 a tick
    assert_eq!(rate(ONE, ONE, 44100), 97391);
    assert_eq!(rate(ONE, ONE / 100, 44100), 9739155);
    // a duration of nothing, or no sample rate, arrives at once
    assert_eq!(rate(ONE, 0, 44100), ONE);
    assert_eq!(rate(ONE, -ONE, 44100), ONE);
    assert_eq!(rate(ONE, ONE, 0), ONE);
    // never more than the whole way
    assert_eq!(rate(ONE, 1, 1), ONE);
    assert_eq!(rate(0, ONE, 44100), 0);
}

#[test]
fn next_phase_advances_and_wraps() {
    assert_eq!(next_phase(0, 440 * ONE, 44100), 42852281);
    assert_eq!(next_phase(ONE - 1, 440 * ONE, 44100), 42852280);
    assert_eq!(next_phase(0, -440 * ONE, 44100), ONE - 42852282);
    // no sample rate: the phase stays
    assert_eq!(next_phase(12345, 440 * ONE, 0), 12345);
    // a quarter of a cycle a tick comes round after four ticks
    let mut phase = 100;
    for _ in 0..4 {
        phase = next_phase(phase, ONE, 4);
    }
    assert_eq!(phase, 100);
}
