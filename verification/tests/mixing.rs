use synth_language::dsl::{
    amplify, const_, sum, var, weighted_sum, weighted_sum_const_pair, weighted_sum_pair,
};
use synth_language::fixed::{HALF, ONE, SIXTY_FOURTH};
use synth_language::graph::Graph;
use synth_language::node::{Node, SignalCtx, Silence};
use synth_language::signal::{BufferedSignal, Sfix};
use synth_language::synth_modules::weighted_sum::WeightedSignal;

fn ctx(sample_index: u64) -> SignalCtx {
    SignalCtx { sample_index, sample_rate: 44100 }
}

#[test]
fn sum_adds_all_signals() {
    let mut g: Graph<Silence> = Graph::new();
    let a = const_(&mut g, ONE);
    let b = const_(&mut g, -3 * ONE);
    let c = const_(&mut g, HALF);
    let s = sum(&mut g, vec![a, b, c]);
    assert_eq!(s.sample(&mut g, &ctx(0)), -ONE - HALF);
    let empty = sum(&mut g, vec![]);
    assert_eq!(empty.sample(&mut g, &ctx(0)), 0);
}

#[test]
fn sum_saturates() {
    let mut g: Graph<Silence> = Graph::new();
    let a = const_(&mut g, i64::MAX);
    let b = const_(&mut g, i64::MAX);
    let s = sum(&mut g, vec![a, b]);
    assert_eq!(s.sample(&mut g, &ctx(0)), i64::MAX);
}

#[test]
fn weighted_sum_is_the_weighted_mean() {
    let mut g: Graph<Silence> = Graph::new();
    let w1 = const_(&mut g, ONE);
    let s1 = const_(&mut g, 4 * ONE);
    let w2 = const_(&mut g, 3 * ONE);
    let s2 = const_(&mut g, 8 * ONE);
    let mix = weighted_sum(
        &mut g,
        vec![
            WeightedSignal { weight: w1.index(), signal: s1.index() },
            WeightedSignal { weight: w2.index(), signal: s2.index() },
        ],
    );
    // (1*4 + 3*8) / 4
    assert_eq!(mix.sample(&mut g, &ctx(0)), 7 * ONE);
}

#[test]
fn weighted_sum_of_zero_weights_is_exactly_zero() {
    let mut g: Graph<Silence> = Graph::new();
    let w1 = const_(&mut g, 0i64);
    let s1 = const_(&mut g, 4 * ONE);
    let w2 = const_(&mut g, 0i64);
    let s2 = const_(&mut g, i64::MAX);
    let mix = weighted_sum(
        &mut g,
        vec![
            WeightedSignal { weight: w1.index(), signal: s1.index() },
            WeightedSignal { weight: w2.index(), signal: s2.index() },
        ],
    );
    assert_eq!(mix.sample(&mut g, &ctx(0)), 0);
    // weights that cancel count as zero too
    let w3 = const_(&mut g, ONE);
    let w4 = const_(&mut g, -ONE);
    let cancelled = weighted_sum(
        &mut g,
        vec![
            WeightedSignal { weight: w3.index(), signal: s1.index() },
            WeightedSignal { weight: w4.index(), signal: s2.index() },
        ],
    );
    assert_eq!(cancelled.sample(&mut g, &ctx(0)), 0);
    let none = weighted_sum(&mut g, vec![]);
    assert_eq!(none.sample(&mut g, &ctx(0)), 0);
}

#[test]
fn weighted_sum_does_not_sample_signals_when_the_weights_are_zero() {
    let mut g: Graph<Silence> = Graph::new();
    let (level, v) = var(&mut g, false);
    let edge = level.trigger(&mut g);
    let as_number: Sfix = BufferedSignal::new(
        &mut g,
        Node::Apply { signal: edge.index(), f: synth_language::node::MapFn::Identity },
    );
    let w = const_(&mut g, 0i64);
    let mix =
        weighted_sum(&mut g, vec![WeightedSignal { weight: w.index(), signal: as_number.index() }]);
    v.set(&mut g, true);
    assert_eq!(mix.sample(&mut g, &ctx(0)), 0);
    // the edge detector was not sampled in tick 0, so it still sees the rise in tick 1
    assert!(edge.sample(&mut g, &ctx(1)));
}

#[test]
fn weighted_sum_pair_cross_fades() {
    let mut g: Graph<Silence> = Graph::new();
    let (weight, v) = var(&mut g, ONE / 4);
    let left = const_(&mut g, 8 * ONE);
    let right = const_(&mut g, 4 * ONE);
    let mix = weighted_sum_pair(&mut g, weight, left, right);
    assert_eq!(mix.sample(&mut g, &ctx(0)), 5 * ONE);
    v.set(&mut g, ONE);
    assert_eq!(mix.sample(&mut g, &ctx(1)), 8 * ONE);
    v.set(&mut g, 0);
    assert_eq!(mix.sample(&mut g, &ctx(2)), 4 * ONE);

    let left = const_(&mut g, 8 * ONE);
    let right = const_(&mut g, 4 * ONE);
    let fixed = weighted_sum_const_pair(&mut g, HALF, left, right);
    assert_eq!(fixed.sample(&mut g, &ctx(0)), 6 * ONE);
}

#[test]
fn amplify_multiplies_and_gates() {
    let mut g: Graph<Silence> = Graph::new();
    let signal = const_(&mut g, 3 * ONE);
    let (by, v) = var(&mut g, HALF);
    let out = amplify(&mut g, signal, by);
    assert_eq!(out.sample(&mut g, &ctx(0)), ONE + HALF);
    v.set(&mut g, -2 * ONE);
    assert_eq!(out.sample(&mut g, &ctx(1)), -6 * ONE);
    // a gain of exactly 1/64 is silent, one unit more is not
    v.set(&mut g, SIXTY_FOURTH);
    assert_eq!(out.sample(&mut g, &ctx(2)), 0);
    v.set(&mut g, -SIXTY_FOURTH);
    assert_eq!(out.sample(&mut g, &ctx(3)), 0);
    v.set(&mut g, SIXTY_FOURTH + 1);
    assert_eq!(out.sample(&mut g, &ctx(4)), (3 * (SIXTY_FOURTH + 1)));
    v.set(&mut g, 0);
    assert_eq!(out.sample(&mut g, &ctx(5)), 0);
}
