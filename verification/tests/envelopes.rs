use synth_language::dsl::{adsr_envelope_exp_01, adsr_envelope_lin_01, asr_envelope_lin_01, const_, var};
use synth_language::fixed::{HALF, ONE};
use synth_language::graph::Graph;
use synth_language::node::{SignalCtx, Silence};
use synth_language::synth_modules::adsr_envelope_exp_01::{
    attack_delta, decay_sustain_delta, release_delta, ATTACK_ASYMPTOTE,
    ATTACK_GRADIENT_FACTOR_NUMERATOR, DECAY_RELEASE_GRADIENT_FACTOR_NUMERATOR,
};
use synth_language::synth_modules::adsr_envelope_lin_01::{attack, decay, release, Signal, Stage};
use synth_language::synth_modules::adsr_envelope_lin_01::Props;
use synth_language::synth_modules::asr_envelope_lin_01::advance;

fn ctx(sample_index: u64) -> SignalCtx {
    SignalCtx { sample_index, sample_rate: 44100 }
}

const CENTISECOND: i64 = ONE / 100;

#[test]
fn constants_of_the_exponential_envelope() {
    assert_eq!(ATTACK_ASYMPTOTE, ONE + HALF);
    let ln3 = (3.0f64.ln() * ONE as f64).round() as i64;
    let ln64 = (64.0f64.ln() * ONE as f64).round() as i64;
    assert_eq!(ATTACK_GRADIENT_FACTOR_NUMERATOR, ln3);
    assert_eq!(DECAY_RELEASE_GRADIENT_FACTOR_NUMERATOR, ln64);
}

#[test]
fn asr_rises_and_falls_by_one_step_a_tick() {
    // one second of attack at 44100 samples a second
    assert_eq!(advance(0, true, ONE, 44100), 97391);
    assert_eq!(advance(97391, true, ONE, 44100), 2 * 97391);
    assert_eq!(advance(ONE - 5, true, ONE, 44100), ONE);
    assert_eq!(advance(HALF, false, ONE, 44100), HALF - 97391);
    assert_eq!(advance(5, false, ONE, 44100), 0);
    // a level out of range comes back into it
    assert_eq!(advance(7 * ONE, true, ONE, 44100), ONE);
    assert_eq!(advance(-7 * ONE, false, ONE, 44100), 0);
    // no duration: there at once
    assert_eq!(advance(0, true, 0, 44100), ONE);
    assert_eq!(advance(ONE, false, 0, 44100), 0);
}

#[test]
fn asr_envelope_follows_its_gate() {
    let mut g: Graph<Silence> = Graph::new();
    let (gate, key) = var(&mut g, false);
    let attack_seconds = const_(&mut g, CENTISECOND);
    let release_seconds = const_(&mut g, 2 * CENTISECOND);
    let env = asr_envelope_lin_01(&mut g, gate, attack_seconds, release_seconds);
    assert_eq!(env.sample(&mut g, &ctx(0)), 0);
    key.set(&mut g, true);
    let mut previous = 0;
    let mut ticks = 0;
    let mut i = 1u64;
    loop {
        let s = env.sample(&mut g, &ctx(i));
        assert!(0 <= s && s <= ONE && s >= previous);
        previous = s;
        i += 1;
        ticks += 1;
        if s == ONE {
            break;
        }
    }
    // a hundredth of a second is 441 samples
    assert_eq!(ticks, 441);
    key.set(&mut g, false);
    let mut falling = 0;
    loop {
        let s = env.sample(&mut g, &ctx(i));
        assert!(0 <= s && s <= previous);
        previous = s;
        i += 1;
        falling += 1;
        if s == 0 {
            break;
        }
    }
    // twice as long, give or take the rounding of the step
    assert!(falling == 882 || falling == 883, "fell for {} ticks", falling);
}

#[test]
fn linear_adsr_steps() {
    assert_eq!(attack(0, CENTISECOND, 44100), 9739155);
    assert_eq!(attack(ONE - 1, CENTISECOND, 44100), ONE);
    assert_eq!(decay(ONE, CENTISECOND, HALF, 44100), ONE - 9739155);
    assert_eq!(decay(HALF + 5, CENTISECOND, HALF, 44100), HALF);
    // a sustain level out of range counts as the nearest end of the range
    assert_eq!(decay(ONE, 0, 2 * ONE, 44100), ONE);
    assert_eq!(decay(ONE, 0, -ONE, 44100), 0);
    assert_eq!(release(HALF, CENTISECOND, 44100), HALF - 9739155);
    assert_eq!(release(5, CENTISECOND, 44100), 0);
}

#[test]
fn linear_adsr_stages() {
    let props =
        Props { gate: 0, attack_seconds: 1, decay_seconds: 2, sustain_01: 3, release_seconds: 4 };
    let fresh = Signal::new(props);
    assert_eq!(fresh.current_value, 0);
    assert!(!fresh.crossed_threshold);
    assert_eq!(fresh.stage(true, HALF), Stage::Attack);
    assert_eq!(fresh.stage(false, HALF), Stage::Release);
    let top = Signal { props, current_value: ONE, crossed_threshold: true };
    assert_eq!(top.stage(true, HALF), Stage::Decay);
    let held = Signal { props, current_value: HALF, crossed_threshold: true };
    assert_eq!(held.stage(true, HALF), Stage::Sustain);
    assert_eq!(held.stage(false, HALF), Stage::Release);
}

#[test]
fn linear_adsr_runs_through_attack_decay_sustain_release() {
    let mut g: Graph<Silence> = Graph::new();
    let (gate, key) = var(&mut g, true);
    let attack_seconds = const_(&mut g, CENTISECOND);
    let decay_seconds = const_(&mut g, CENTISECOND);
    let sustain = const_(&mut g, HALF);
    let release_seconds = const_(&mut g, CENTISECOND);
    let env =
        adsr_envelope_lin_01(&mut g, gate, attack_seconds, decay_seconds, sustain, release_seconds);
    let mut i = 0u64;
    let mut samples = Vec::new();
    for _ in 0..441 {
        samples.push(env.sample(&mut g, &ctx(i)));
        i += 1;
    }
    assert_eq!(samples[0], 9739155);
    assert_eq!(samples[440], ONE);
    assert!(samples[439] < ONE);
    // decay: half the way down takes half the decay time
    let mut decaying = 0;
    loop {
        let s = env.sample(&mut g, &ctx(i));
        i += 1;
        decaying += 1;
        assert!(s >= HALF && s <= ONE);
        if s == HALF {
            break;
        }
    }
    assert_eq!(decaying, 221);
    // sustain
    for _ in 0..100 {
        assert_eq!(env.sample(&mut g, &ctx(i)), HALF);
        i += 1;
    }
    // release
    key.set(&mut g, false);
    let mut previous = HALF;
    let mut releasing = 0;
    loop {
        let s = env.sample(&mut g, &ctx(i));
        i += 1;
        releasing += 1;
        assert!(s <= previous && s >= 0);
        previous = s;
        if s == 0 {
            break;
        }
    }
    assert_eq!(releasing, 221);
    // pressing again starts a new attack
    key.set(&mut g, true);
    assert_eq!(env.sample(&mut g, &ctx(i)), 9739155);
}

#[test]
fn exponential_deltas() {
    // one second of attack from zero: ln 3 / 44100 of the way to 1.5, rounded up
    let k = ATTACK_GRADIENT_FACTOR_NUMERATOR / 44100;
    let exact = k as i128 * ATTACK_ASYMPTOTE as i128;
    assert_eq!(attack_delta(0, ONE, 44100), ((exact + (ONE as i128 - 1)) >> 32) as i64);
    assert_eq!(attack_delta(0, ONE, 44100), 160493);
    let k = DECAY_RELEASE_GRADIENT_FACTOR_NUMERATOR / 44100;
    assert_eq!(release_delta(ONE, ONE, 44100), k);
    assert_eq!(release_delta(0, ONE, 44100), 0);
    assert_eq!(decay_sustain_delta(ONE, ONE, HALF, 44100), (k + 1) / 2);
    assert_eq!(decay_sustain_delta(HALF, ONE, HALF, 44100), 0);
    assert_eq!(decay_sustain_delta(HALF - 5, ONE, HALF, 44100), 0);
    // a duration of nothing covers the whole way
    assert_eq!(release_delta(ONE, 0, 44100), ONE);
    assert_eq!(attack_delta(0, 0, 44100), ATTACK_ASYMPTOTE);
}

#[test]
fn exponential_adsr_keeps_its_times_and_its_bounds() {
    let mut g: Graph<Silence> = Graph::new();
    let (gate, key) = var(&mut g, true);
    let attack_seconds = const_(&mut g, CENTISECOND);
    let decay_seconds = const_(&mut g, CENTISECOND);
    let sustain = const_(&mut g, HALF);
    let release_seconds = const_(&mut g, CENTISECOND);
    let env =
        adsr_envelope_exp_01(&mut g, gate, attack_seconds, decay_seconds, sustain, release_seconds);
    let mut i = 0u64;
    let mut ticks = 0;
    let mut previous = 0;
    loop {
        let s = env.sample(&mut g, &ctx(i));
        i += 1;
        ticks += 1;
        assert!(s > previous && s <= ONE);
        previous = s;
        if s == ONE {
            break;
        }
    }
    // the attack reaches one in its time, to the tick
    assert_eq!(ticks, 441);
    // decay: within 1/64 of the way to the sustain level after its time
    for _ in 0..441 {
        let s = env.sample(&mut g, &ctx(i));
        i += 1;
        assert!(s <= previous && s >= HALF);
        previous = s;
    }
    assert!(previous - HALF <= HALF / 64);
    assert!(previous - HALF >= HALF / 70);
    key.set(&mut g, false);
    let start = previous;
    for _ in 0..441 {
        let s = env.sample(&mut g, &ctx(i));
        i += 1;
        assert!(s <= previous && s >= 0);
        previous = s;
    }
    assert!(previous <= start / 64);
    assert!(previous >= start / 70);
}

#[test]
fn exponential_adsr_survives_degenerate_settings() {
    let mut g: Graph<Silence> = Graph::new();
    let (gate, key) = var(&mut g, true);
    let (seconds, duration) = var(&mut g, 0i64);
    let (sustain, level) = var(&mut g, 5 * ONE);
    let env = adsr_envelope_exp_01(
        &mut g,
        gate,
        seconds.clone_ref(),
        seconds.clone_ref(),
        sustain,
        seconds,
    );
    let settings = [0, 1, -ONE, ONE / 1000000, i64::MAX, i64::MIN];
    let mut i = 0u64;
    for round in 0..48 {
        duration.set(&mut g, settings[round % settings.len()]);
        level.set(&mut g, settings[(round / 2) % settings.len()]);
        key.set(&mut g, round % 5 < 3);
        let s = env.sample(&mut g, &SignalCtx { sample_index: i, sample_rate: (round % 3) as u32 });
        assert!(0 <= s && s <= ONE, "sample {} in round {}", s, round);
        i += 1;
    }
}

#[test]
fn released_envelopes_reach_zero_and_do_not_stall() {
    // a level of about 2e-5 with ten seconds of release still falls in every tick
    assert_eq!(release_delta(85899, 10 * ONE, 44100), 1);
    assert_eq!(release_delta(1, 10 * ONE, 44100), 1);
    assert_eq!(release_delta(0, 10 * ONE, 44100), 0);
    assert_eq!(decay_sustain_delta(HALF + 1, 10 * ONE, HALF, 44100), 1);
    // durations beyond every step that fixed point can hold move by one unit a tick
    assert_eq!(release(5, i64::MAX, 44100), 4);
    assert_eq!(attack(5, i64::MAX, 44100), 6);
    assert_eq!(advance(5, false, i64::MAX, 44100), 4);
    assert_eq!(release_delta(ONE, i64::MAX, u32::MAX), 1);

    let mut g: Graph<Silence> = Graph::new();
    let (gate, key) = var(&mut g, true);
    let attack_seconds = const_(&mut g, 0i64);
    let decay_seconds = const_(&mut g, CENTISECOND);
    let sustain = const_(&mut g, ONE);
    let release_seconds = const_(&mut g, CENTISECOND / 10);
    let env =
        adsr_envelope_exp_01(&mut g, gate, attack_seconds, decay_seconds, sustain, release_seconds);
    assert_eq!(env.sample(&mut g, &ctx(0)), ONE);
    key.set(&mut g, false);
    let mut previous = ONE;
    let mut ticks = 0u64;
    loop {
        ticks += 1;
        let s = env.sample(&mut g, &ctx(ticks));
        assert!(s < previous, "stalled at {} after {} ticks", s, ticks);
        previous = s;
        if s == 0 {
            break;
        }
    }
    // a release of a thousandth of a second: 44 ticks to 1/64, zero soon after
    assert!(ticks > 44 && ticks < 500, "reached zero after {} ticks", ticks);
    assert_eq!(env.sample(&mut g, &ctx(ticks + 1)), 0);
}
