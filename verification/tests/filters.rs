use std::f64::consts::PI;
use synth_language::dsl::{
    biquad_filter, butterworth_high_pass_filter, butterworth_low_pass_filter,
    chebyshev_high_pass_filter, chebyshev_low_pass_filter, const_,
    moving_average_high_pass_filter, moving_average_low_pass_filter,
    state_variable_filter_first_order, var,
};
use synth_language::fixed::{HALF, ONE};
use synth_language::graph::Graph;
use synth_language::node::{Node, SignalCtx, Silence};
use synth_language::signal::{BufferedSignal, Sfix};
use synth_language::synth_modules::biquad_filter::{
    section, Buffer, BufferEntry, Pass, CUTOFF_MIN, EPSILON_MIN,
};
use synth_language::synth_modules::state_variable_filter_first_order::{
    next_parts, Parts, PropsGen,
};
use synth_language::value::Value;

fn ctx(sample_index: u64) -> SignalCtx {
    SignalCtx { sample_index, sample_rate: 44100 }
}

#[test]
fn moving_average_low_pass_is_the_mean_of_the_window() {
    let mut g: Graph<Silence> = Graph::new();
    let (signal, x) = var(&mut g, 0i64);
    let width = const_(&mut g, 3u32);
    let low = moving_average_low_pass_filter(&mut g, signal, width);
    let inputs = [3, 6, 9, 12, -30, 7];
    // a width of 3 keeps three samples; the last mean, -11/3, rounds down
    let expected =
        [3 * ONE, 4 * ONE + HALF, 6 * ONE, 9 * ONE, -3 * ONE, (-11 * ONE).div_euclid(3)];
    for i in 0..inputs.len() {
        x.set(&mut g, inputs[i] * ONE);
        assert_eq!(low.sample(&mut g, &ctx(i as u64)), expected[i]);
    }
}

#[test]
fn moving_average_of_width_two_is_the_mean_of_the_last_two() {
    let mut g: Graph<Silence> = Graph::new();
    let (signal, x) = var(&mut g, 0i64);
    let width = const_(&mut g, 2u32);
    let low = moving_average_low_pass_filter(&mut g, signal, width);
    let inputs = [2, 4, 6];
    let expected = [2, 3, 5];
    for i in 0..inputs.len() {
        x.set(&mut g, inputs[i] * ONE);
        assert_eq!(low.sample(&mut g, &ctx(i as u64)), expected[i] * ONE);
    }
    match &g.nodes[low.index()].signal {
        Node::MovingAverageFilter(f) => assert_eq!(f.buffer.len(), 2),
        _ => panic!("not a filter"),
    }
    // a constant input gives the constant
    let c = const_(&mut g, 7 * ONE);
    let width = const_(&mut g, 5u32);
    let flat = moving_average_low_pass_filter(&mut g, c, width);
    for i in 0..10u64 {
        assert_eq!(flat.sample(&mut g, &ctx(i)), 7 * ONE);
    }
}

#[test]
fn moving_average_window_follows_the_width() {
    let mut g: Graph<Silence> = Graph::new();
    let (signal, x) = var(&mut g, 0i64);
    let (width, w) = var(&mut g, 4u32);
    let low = moving_average_low_pass_filter(&mut g, signal, width);
    for i in 0..4 {
        x.set(&mut g, (i + 1) * 4 * ONE);
        low.sample(&mut g, &ctx(i as u64));
    }
    // the window holds 4, 8, 12, 16; a width of zero or one keeps the new sample alone
    w.set(&mut g, 0);
    x.set(&mut g, 100 * ONE);
    assert_eq!(low.sample(&mut g, &ctx(4)), 100 * ONE);
    w.set(&mut g, 2);
    x.set(&mut g, 50 * ONE);
    assert_eq!(low.sample(&mut g, &ctx(5)), 75 * ONE);
    w.set(&mut g, 1);
    x.set(&mut g, 20 * ONE);
    assert_eq!(low.sample(&mut g, &ctx(6)), 20 * ONE);
}

#[test]
fn moving_average_high_pass_is_the_input_less_the_low_pass() {
    let mut g: Graph<Silence> = Graph::new();
    let (signal, x) = var(&mut g, 0i64);
    let width = const_(&mut g, 2u32);
    let high = moving_average_high_pass_filter(&mut g, signal, width);
    x.set(&mut g, 10 * ONE);
    assert_eq!(high.sample(&mut g, &ctx(0)), 0);
    x.set(&mut g, 20 * ONE);
    assert_eq!(high.sample(&mut g, &ctx(1)), 5 * ONE);
    x.set(&mut g, 20 * ONE);
    assert_eq!(high.sample(&mut g, &ctx(2)), 0);
    x.set(&mut g, -20 * ONE);
    assert_eq!(high.sample(&mut g, &ctx(3)), -20 * ONE);
}

#[test]
fn state_variable_filter_recurrence() {
    let parts = Parts { low_pass: ONE, band_pass: 2 * ONE, high_pass: 0 };
    let props = PropsGen { signal: 10 * ONE, cutoff_01: HALF, resonance_01: HALF / 2 };
    let next = next_parts(&parts, &props);
    // low = 1 + 0.5 * 2; band = 10 - 1 - 0.25 * 2; high = 10 - low - band
    assert_eq!(next.low_pass, 2 * ONE);
    assert_eq!(next.band_pass, 8 * ONE + HALF);
    assert_eq!(next.high_pass, -HALF);
}

#[test]
fn state_variable_filter_taps_share_one_state() {
    let mut g: Graph<Silence> = Graph::new();
    let signal = const_(&mut g, ONE);
    let cutoff = const_(&mut g, HALF);
    let resonance = const_(&mut g, HALF);
    let taps = state_variable_filter_first_order(&mut g, signal, cutoff, resonance);
    // tick 0, from rest: low 0, band 1, high 0
    assert_eq!(taps.band_pass.sample(&mut g, &ctx(0)), ONE);
    assert_eq!(taps.low_pass.sample(&mut g, &ctx(0)), 0);
    assert_eq!(taps.high_pass.sample(&mut g, &ctx(0)), 0);
    // tick 1: low 0.5, band 1 - 0 - 0.5, high 1 - 0.5 - 0.5; one tap alone advances all
    assert_eq!(taps.high_pass.sample(&mut g, &ctx(1)), 0);
    assert_eq!(taps.low_pass.sample(&mut g, &ctx(1)), HALF);
    assert_eq!(taps.band_pass.sample(&mut g, &ctx(1)), HALF);
}

#[test]
fn biquad_section_formula() {
    let entry = BufferEntry { a: HALF, d1: HALF, d2: -HALF, w0: 0, w1: 2 * ONE, w2: 4 * ONE };
    // w0 = 0.5*2 - 0.5*4 + 3 = 2; low: 0.5 * (2 + 4 + 4) = 5; high: 0.5 * (2 - 4 + 4) = 1
    let (after, y) = section(entry, 3 * ONE, Pass::Low);
    assert_eq!(y, 5 * ONE);
    assert_eq!(
        after,
        BufferEntry { a: HALF, d1: HALF, d2: -HALF, w0: 2 * ONE, w1: 2 * ONE, w2: 2 * ONE }
    );
    let (after, y) = section(entry, 3 * ONE, Pass::High);
    assert_eq!(y, ONE);
    assert_eq!(after.w1, 2 * ONE);
    assert_eq!(after.w2, 2 * ONE);
}

#[test]
fn biquad_buffer_cascades_its_sections() {
    let mut buffer = Buffer::new(2);
    assert_eq!(buffer.entries.len(), 2);
    assert_eq!(buffer.entries[0], BufferEntry { a: 0, d1: 0, d2: 0, w0: 0, w1: 0, w2: 0 });
    buffer.update_entries(
        &vec![Value::Num(0), Value::Triple(ONE, 0, 0), Value::Triple(HALF, 0, 0)],
        2,
    );
    assert_eq!(buffer.entries[0].a, ONE);
    assert_eq!(buffer.entries[1].a, HALF);
    // with d1 = d2 = 0 a section is a * (x + 2 x' + x'')
    assert_eq!(buffer.apply_low_pass(ONE), HALF);
    // second sample: first section 1 + 2*1 + 0 = 3, second 0.5 * (3 + 2*1 + 0)
    assert_eq!(buffer.apply_low_pass(ONE), 2 * ONE + HALF);
    let mut high = Buffer::new(1);
    high.update_entries(&vec![Value::Num(0), Value::Triple(ONE, 0, 0)], 1);
    assert_eq!(high.apply_high_pass(ONE), ONE);
    assert_eq!(high.apply_high_pass(ONE), -ONE);
    assert_eq!(high.apply_high_pass(ONE), 0);
}

#[test]
fn filter_of_zero_order_is_the_identity() {
    let mut g: Graph<Silence> = Graph::new();
    let (signal, x) = var(&mut g, 0i64);
    let coefficients = const_(&mut g, (ONE, ONE, ONE));
    let low = biquad_filter(&mut g, signal.clone_ref(), vec![coefficients], Pass::Low, 0);
    let high = biquad_filter(&mut g, signal, vec![], Pass::High, 0);
    let inputs = [0, 1, -1, ONE, -ONE, 12345678901234, i64::MAX, i64::MIN];
    for i in 0..inputs.len() {
        x.set(&mut g, inputs[i]);
        assert_eq!(low.sample(&mut g, &ctx(i as u64)), inputs[i]);
        assert_eq!(high.sample(&mut g, &ctx(i as u64)), inputs[i]);
    }
}

#[test]
fn filter_takes_its_coefficients_from_signals_in_every_tick() {
    let mut g: Graph<Silence> = Graph::new();
    let signal = const_(&mut g, ONE);
    let (coefficients, c) = var(&mut g, (ONE, 0i64, 0i64));
    let filter = biquad_filter(&mut g, signal, vec![coefficients], Pass::Low, 1);
    assert_eq!(filter.sample(&mut g, &ctx(0)), ONE);
    assert_eq!(filter.sample(&mut g, &ctx(1)), 3 * ONE);
    c.set(&mut g, (HALF, 0, 0));
    assert_eq!(filter.sample(&mut g, &ctx(2)), 2 * ONE);
    // feedback: w0 = d1 * w1 + x
    c.set(&mut g, (ONE, HALF, 0));
    // w1 = 1, w2 = 1: w0 = 0.5 + 1, y = 1.5 + 2 + 1
    assert_eq!(filter.sample(&mut g, &ctx(3)), 4 * ONE + HALF);
    match &g.nodes[filter.index()].signal {
        Node::BiquadFilter(f) => {
            assert_eq!(f.buffer.entries[0].w1, ONE + HALF);
            assert_eq!(f.buffer.entries[0].w2, ONE);
        }
        _ => panic!("not a filter"),
    }
    let _unused: Sfix = BufferedSignal::at(0);
}

/// Designs filter sections in floating point.
enum Design {
    SeenCutoff,
    Butterworth { high: bool },
    Chebyshev { high: bool },
    Gain,
    SeenRipple,
}

fn fixed(x: f64) -> i64 {
    (x * ONE as f64).round() as i64
}

fn float(v: &Value) -> f64 {
    v.as_num() as f64 / ONE as f64
}

impl synth_language::node::SignalTrait for Design {
    fn next(self, inputs: synth_language::node::Inputs, ctx: SignalCtx) -> Self {
        let mut after = self;
        after.sample(&inputs.to_vec(), &ctx);
        after
    }

    fn output(self, inputs: synth_language::node::Inputs, ctx: SignalCtx) -> Value {
        let mut state = self;
        state.sample(&inputs.to_vec(), &ctx)
    }

    fn sample(&mut self, inputs: &Vec<Value>, _ctx: &SignalCtx) -> Value {
        match self {
            Design::Butterworth { high } => {
                let a = (PI * float(&inputs[0])).tan();
                let a2 = a * a;
                let r = (PI / 4.0).sin();
                let s = a2 + (2.0 * a * r) + 1.0;
                let gain = if *high { 1.0 / s } else { a2 / s };
                Value::Triple(
                    fixed(gain),
                    fixed((2.0 * (1.0 - a2)) / s),
                    fixed(-(a2 - (2.0 * a * r) + 1.0) / s),
                )
            }
            Design::Chebyshev { high } => {
                let a = (PI * float(&inputs[0])).tan();
                let a2 = a * a;
                let epsilon = float(&inputs[1]);
                let u = ((1.0 + (1.0 + (epsilon * epsilon)).sqrt()) / epsilon).ln();
                let su = (u / 2.0).sinh();
                let cu = (u / 2.0).cosh();
                let theta = PI / 4.0;
                let b = theta.sin() * su;
                let c = theta.cos() * cu;
                let c = (b * b) + (c * c);
                if *high {
                    let s = a2 + (2.0 * a * b) + c;
                    Value::Triple(
                        fixed(1.0 / (4.0 * s)),
                        fixed((2.0 * (c - a2)) / s),
                        fixed(-(a2 - (2.0 * a * b) + c) / s),
                    )
                } else {
                    let s = (a2 * c) + (2.0 * a * b) + 1.0;
                    Value::Triple(
                        fixed(a2 / (4.0 * s)),
                        fixed((2.0 * (1.0 - (a2 * c))) / s),
                        fixed(-((a2 * c) - (2.0 * a * b) + 1.0) / s),
                    )
                }
            }
            Design::Gain => Value::Num(fixed((1.0 - (-float(&inputs[0])).exp()) / 2.0)),
            Design::SeenRipple => inputs[1],
            Design::SeenCutoff => inputs[0],
        }
    }
}

#[test]
fn butterworth_low_pass_lets_a_constant_through_and_holds_back_an_alternation() {
    let mut g: Graph<Design> = Graph::new();
    let (signal, x) = var(&mut g, ONE);
    let cutoff = const_(&mut g, 1000 * ONE);
    let filter =
        butterworth_low_pass_filter(
        &mut g,
        signal,
        cutoff,
        vec![Design::Butterworth { high: false }],
    );
    let mut last = 0;
    for i in 0..2000u64 {
        last = filter.sample(&mut g, &ctx(i));
    }
    assert!((last - ONE).abs() < ONE / 1000, "settled at {}", last);
    // the fastest alternation there is, far above the cutoff
    let mut peak = 0;
    for i in 2000..4000u64 {
        x.set(&mut g, if i % 2 == 0 { ONE } else { -ONE });
        let s = filter.sample(&mut g, &ctx(i));
        if i > 3000 {
            peak = peak.max(s.abs());
        }
    }
    assert!(peak < ONE / 100, "peak of {}", peak);
}

#[test]
fn butterworth_high_pass_holds_back_a_constant() {
    let mut g: Graph<Design> = Graph::new();
    let signal = const_(&mut g, ONE);
    let cutoff = const_(&mut g, 1000 * ONE);
    let filter =
        butterworth_high_pass_filter(
        &mut g,
        signal,
        cutoff,
        vec![Design::Butterworth { high: true }],
    );
    let first = filter.sample(&mut g, &ctx(0));
    assert!(first > ONE / 2);
    let mut last = first;
    for i in 1..2000u64 {
        last = filter.sample(&mut g, &ctx(i));
    }
    assert!(last.abs() < ONE / 1000, "settled at {}", last);
}

#[test]
fn chebyshev_low_pass_has_unit_gain_for_a_constant() {
    let mut g: Graph<Design> = Graph::new();
    let signal = const_(&mut g, ONE);
    let cutoff = const_(&mut g, 2000 * ONE);
    let ripple = const_(&mut g, 10 * ONE);
    let filter = chebyshev_low_pass_filter(
        &mut g,
        signal,
        cutoff,
        ripple,
        vec![Design::Chebyshev { high: false }],
        Design::Gain,
    );
    let mut last = 0;
    for i in 0..3000u64 {
        last = filter.sample(&mut g, &ctx(i));
    }
    // the gain of the section over half of 1 - exp(-10): within the ripple of one
    assert!((last - ONE).abs() < ONE / 100, "settled at {}", last);
}

#[test]
fn chebyshev_keeps_the_ripple_at_or_above_its_least_value() {
    assert_eq!(EPSILON_MIN, fixed(0.01));
    let mut g: Graph<Design> = Graph::new();
    let signal = const_(&mut g, ONE);
    let cutoff = const_(&mut g, 2000 * ONE);
    let (ripple, r) = var(&mut g, 0i64);
    let filter = chebyshev_high_pass_filter(
        &mut g,
        signal,
        cutoff,
        ripple,
        vec![Design::SeenRipple],
        Design::Gain,
    );
    // the design is the fourth of the eight nodes of the filter
    let design: Sfix = BufferedSignal::at(filter.index() - 4);
    let cases = [(0, EPSILON_MIN), (-ONE, EPSILON_MIN), (ONE, ONE), (i64::MAX, i64::MAX)];
    for i in 0..cases.len() {
        let (given, seen) = cases[i];
        r.set(&mut g, given);
        filter.sample(&mut g, &ctx(i as u64));
        assert_eq!(design.sample(&mut g, &ctx(i as u64)), seen);
    }
}

#[test]
fn filters_keep_the_cutoff_at_or_above_its_least_value() {
    assert_eq!(CUTOFF_MIN, fixed(0.001));
    let mut g: Graph<Design> = Graph::new();
    let signal = const_(&mut g, ONE);
    let (cutoff, hz) = var(&mut g, 0i64);
    let filter = butterworth_low_pass_filter(&mut g, signal, cutoff, vec![Design::SeenCutoff]);
    // the design is the third of the four nodes of the filter
    let design: Sfix = BufferedSignal::at(filter.index() - 1);
    // at 44100 samples a second: 4410 Hz is a tenth, 22.05 Hz a two-thousandth
    let cases =
        [(4410 * ONE, ONE / 10), (22 * ONE, CUTOFF_MIN), (0, CUTOFF_MIN), (-ONE, CUTOFF_MIN)];
    for i in 0..cases.len() {
        let (given, seen) = cases[i];
        hz.set(&mut g, given);
        filter.sample(&mut g, &ctx(i as u64));
        assert_eq!(design.sample(&mut g, &ctx(i as u64)), seen);
    }
    // without a sample rate the share is zero, and the floor holds
    hz.set(&mut g, 4410 * ONE);
    let still = SignalCtx { sample_index: 10, sample_rate: 0 };
    filter.sample(&mut g, &still);
    assert_eq!(design.sample(&mut g, &still), CUTOFF_MIN);
}

#[test]
fn filters_of_no_section_hand_the_signal_on() {
    let mut g: Graph<Design> = Graph::new();
    let (signal, x) = var(&mut g, 0i64);
    let cutoff = const_(&mut g, 1000 * ONE);
    let ripple = const_(&mut g, ONE);
    let butterworth = butterworth_high_pass_filter(&mut g, signal.clone_ref(), cutoff, vec![]);
    let cutoff = const_(&mut g, 1000 * ONE);
    let chebyshev =
        chebyshev_low_pass_filter(&mut g, signal, cutoff, ripple, vec![], Design::Gain);
    let inputs = [0, 5, -ONE, i64::MAX, i64::MIN];
    for i in 0..inputs.len() {
        x.set(&mut g, inputs[i]);
        assert_eq!(butterworth.sample(&mut g, &ctx(i as u64)), inputs[i]);
        assert_eq!(chebyshev.sample(&mut g, &ctx(i as u64)), inputs[i]);
    }
}

#[test]
fn filters_have_one_section_for_each_design() {
    let mut g: Graph<Design> = Graph::new();
    let signal = const_(&mut g, ONE);
    let cutoff = const_(&mut g, 1000 * ONE);
    let before = g.len();
    let filter = butterworth_low_pass_filter(
        &mut g,
        signal,
        cutoff,
        vec![
            Design::Butterworth { high: false },
            Design::Butterworth { high: false },
            Design::Butterworth { high: false },
        ],
    );
    assert_eq!(filter.index(), before + 5);
    let mut last = 0;
    for i in 0..3000u64 {
        last = filter.sample(&mut g, &ctx(i));
    }
    assert!((last - ONE).abs() < ONE / 1000, "settled at {}", last);
    match &g.nodes[filter.index()].signal {
        Node::BiquadFilter(f) => {
            assert_eq!(f.buffer.entries.len(), 3);
            assert_eq!(f.props.coefficients, vec![before + 2, before + 3, before + 4]);
            assert!(f.buffer.entries[2].a != 0);
        }
        _ => panic!("not a filter"),
    }
    let ripple = const_(&mut g, 10 * ONE);
    let cutoff = const_(&mut g, 2000 * ONE);
    let signal = const_(&mut g, ONE);
    let before = g.len();
    let two = chebyshev_low_pass_filter(
        &mut g,
        signal,
        cutoff,
        ripple,
        vec![Design::Chebyshev { high: false }, Design::Chebyshev { high: false }],
        Design::Gain,
    );
    assert_eq!(two.index(), before + 8);
}
