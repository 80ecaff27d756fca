use synth_language::dsl::{
    const_, lfo, lfo_01, oscillator, saw_oscillator, sine_oscillator, square_oscillator,
    triangle_oscillator, var,
};
use synth_language::fixed::{HALF, ONE};
use synth_language::graph::Graph;
use synth_language::node::{Inputs, SignalCtx, SignalTrait, Silence};
use synth_language::synth_modules::oscillator::{saw, square, triangle};
use synth_language::value::{Value, Waveform};

fn ctx(sample_index: u64) -> SignalCtx {
    SignalCtx { sample_index, sample_rate: 44100 }
}

fn to_float(x: i64) -> f64 {
    x as f64 / ONE as f64
}

/// Shapes a phase into a sine in floating point.
struct Sine;

impl SignalTrait for Sine {
    fn next(self, inputs: Inputs, ctx: SignalCtx) -> Self {
        let mut after = self;
        after.sample(&inputs.to_vec(), &ctx);
        after
    }

    fn output(self, inputs: Inputs, ctx: SignalCtx) -> Value {
        let mut state = self;
        state.sample(&inputs.to_vec(), &ctx)
    }

    fn sample(&mut self, inputs: &Vec<Value>, _ctx: &SignalCtx) -> Value {
        let phase = to_float(inputs[0].as_num());
        let x = (phase * std::f64::consts::PI * 2.0).sin();
        Value::Num((x * ONE as f64).round() as i64)
    }
}

#[test]
fn saw_440_hz_at_44100_wraps_near_sample_100() {
    let mut g: Graph<Silence> = Graph::new();
    let f = const_(&mut g, 440 * ONE);
    let osc = saw_oscillator(&mut g, f, Silence);
    let mut samples = Vec::new();
    for i in 0..=100u64 {
        samples.push(osc.sample(&mut g, &ctx(i)));
    }
    // the first sample is the saw one step after phase zero
    assert_eq!(samples[0], 2 * 42852281 - ONE);
    assert!((to_float(samples[0]) - (-1.0)).abs() < 0.03);
    // it rises by two steps a tick until it wraps at sample 100
    for i in 1..100 {
        assert_eq!(samples[i] - samples[i - 1], 2 * 42852281);
    }
    assert!(samples[99] > ONE - ONE / 100);
    assert!(samples[100] < samples[99]);
    assert!((to_float(samples[100]) - (-0.98458)).abs() < 0.0001);
    for s in samples {
        assert!(-ONE <= s && s < ONE);
    }
}

#[test]
fn saw_returns_to_its_start_after_a_whole_period() {
    // 11025 Hz at 44100 samples a second: a period of exactly four samples
    let mut g: Graph<Silence> = Graph::new();
    let f = const_(&mut g, 11025 * ONE);
    let osc = saw_oscillator(&mut g, f, Silence);
    let mut samples = Vec::new();
    for i in 0..12u64 {
        samples.push(osc.sample(&mut g, &ctx(i)));
    }
    assert_eq!(&samples[0..4], &[-HALF, 0, HALF, -ONE]);
    for i in 4..12 {
        assert_eq!(samples[i], samples[i - 4]);
    }
}

#[test]
fn shapes_at_chosen_phases() {
    assert_eq!(saw(0), -ONE);
    assert_eq!(saw(HALF), 0);
    assert_eq!(saw(ONE - 1), ONE - 2);
    assert_eq!(triangle(0), ONE);
    assert_eq!(triangle(HALF), -ONE);
    assert_eq!(triangle(ONE / 4), 0);
    assert_eq!(triangle(3 * (ONE / 4)), 0);
    assert_eq!(square(0, HALF), -ONE);
    assert_eq!(square(HALF, HALF), ONE);
    assert_eq!(square(HALF - 1, HALF), -ONE);
    assert_eq!(square(0, 0), ONE);
}

#[test]
fn square_is_exactly_minus_one_or_one() {
    let mut g: Graph<Silence> = Graph::new();
    let f = const_(&mut g, 1000 * ONE);
    let width = const_(&mut g, ONE / 4);
    let osc = square_oscillator(&mut g, f, width, Silence);
    let mut low = 0;
    let mut high = 0;
    for i in 0..441u64 {
        let s = osc.sample(&mut g, &ctx(i));
        assert!(s == ONE || s == -ONE);
        if s == ONE {
            high += 1;
        } else {
            low += 1;
        }
    }
    // ten periods of 44.1 samples, a quarter of each low
    assert!(low >= 105 && low <= 115, "low for {} samples", low);
    assert_eq!(low + high, 441);
}

#[test]
fn triangle_stays_within_minus_one_and_one() {
    let mut g: Graph<Silence> = Graph::new();
    let f = const_(&mut g, 777 * ONE);
    let osc = triangle_oscillator(&mut g, f, Silence);
    let mut lowest = ONE;
    let mut highest = -ONE;
    for i in 0..1000u64 {
        let s = osc.sample(&mut g, &ctx(i));
        assert!(-ONE <= s && s <= ONE);
        lowest = lowest.min(s);
        highest = highest.max(s);
    }
    assert!(lowest < -ONE + ONE / 10);
    assert!(highest > ONE - ONE / 10);
}

#[test]
fn sine_comes_from_the_shaper() {
    let mut g: Graph<Sine> = Graph::new();
    let f = const_(&mut g, 11025 * ONE);
    let osc = sine_oscillator(&mut g, f, Sine);
    // phases 1/4, 1/2, 3/4, 0
    assert_eq!(osc.sample(&mut g, &ctx(0)), ONE);
    assert!(osc.sample(&mut g, &ctx(1)).abs() < 4);
    assert_eq!(osc.sample(&mut g, &ctx(2)), -ONE);
    assert!(osc.sample(&mut g, &ctx(3)).abs() < 4);
}

#[test]
fn sine_of_a_graph_without_shaper_is_silent_and_a_wild_shaper_is_clamped() {
    let mut g: Graph<Silence> = Graph::new();
    let f = const_(&mut g, 440 * ONE);
    let osc = sine_oscillator(&mut g, f, Silence);
    assert_eq!(osc.sample(&mut g, &ctx(0)), 0);

    struct Wild;
    impl SignalTrait for Wild {
        fn next(self, inputs: Inputs, ctx: SignalCtx) -> Self {
            let mut after = self;
            after.sample(&inputs.to_vec(), &ctx);
            after
        }

        fn output(self, inputs: Inputs, ctx: SignalCtx) -> Value {
            let mut state = self;
            state.sample(&inputs.to_vec(), &ctx)
        }

        fn sample(&mut self, _inputs: &Vec<Value>, ctx: &SignalCtx) -> Value {
            if ctx.sample_index == 0 {
                Value::Num(5 * ONE)
            } else {
                Value::Num(-5 * ONE)
            }
        }
    }
    let mut g: Graph<Wild> = Graph::new();
    let f = const_(&mut g, 440 * ONE);
    let osc = sine_oscillator(&mut g, f, Wild);
    assert_eq!(osc.sample(&mut g, &ctx(0)), ONE);
    assert_eq!(osc.sample(&mut g, &ctx(1)), -ONE);
}

#[test]
fn waveform_can_change_while_the_oscillator_runs() {
    let mut g: Graph<Silence> = Graph::new();
    let (waveform, select) = var(&mut g, Waveform::Saw);
    let f = const_(&mut g, 11025 * ONE);
    let width = const_(&mut g, HALF);
    let osc = oscillator(&mut g, waveform, f, width, Silence);
    assert_eq!(osc.sample(&mut g, &ctx(0)), -HALF);
    select.set(&mut g, Waveform::Square);
    assert_eq!(osc.sample(&mut g, &ctx(1)), ONE);
    select.set(&mut g, Waveform::Triangle);
    assert_eq!(osc.sample(&mut g, &ctx(2)), 0);
    select.set(&mut g, Waveform::Square);
    assert_eq!(osc.sample(&mut g, &ctx(3)), -ONE);
}

#[test]
fn lfo_resets_to_its_offset_when_triggered() {
    let mut g: Graph<Silence> = Graph::new();
    let waveform = const_(&mut g, Waveform::Saw);
    let f = const_(&mut g, 11025 * ONE);
    let (reset, fire) = var(&mut g, false);
    let offset = const_(&mut g, HALF);
    let width = const_(&mut g, 0i64);
    let osc = lfo(&mut g, waveform, f, reset, offset, width, Silence);
    // starts at the offset and advances from there
    assert_eq!(osc.sample(&mut g, &ctx(0)), HALF);
    assert_eq!(osc.sample(&mut g, &ctx(1)), -ONE);
    fire.set(&mut g, true);
    assert_eq!(osc.sample(&mut g, &ctx(2)), 0);
    assert_eq!(osc.sample(&mut g, &ctx(3)), 0);
    fire.set(&mut g, false);
    assert_eq!(osc.sample(&mut g, &ctx(4)), HALF);
}

#[test]
fn lfo_01_lies_between_zero_and_one() {
    let mut g: Graph<Silence> = Graph::new();
    let waveform = const_(&mut g, Waveform::Triangle);
    let f = const_(&mut g, 321 * ONE);
    let reset = const_(&mut g, false);
    let offset = const_(&mut g, 0i64);
    let width = const_(&mut g, 0i64);
    let osc = lfo_01(&mut g, waveform, f, reset, offset, width, Silence);
    for i in 0..500u64 {
        let s = osc.sample(&mut g, &ctx(i));
        assert!(0 <= s && s <= ONE);
    }
}
