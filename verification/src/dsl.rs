//! Functions that build a graph out of signals: one for each kind of module.
//!
//! Each adds its nodes at the end of the graph and returns handles on them.
use vstd::prelude::*;
use crate::fixed::ONE;
use crate::graph::{Graph, GraphView};
use crate::node::{MapFn, Node, NodeView, SignalTrait};
use crate::signal::{edged, expanded, BufferedSignal, Const, Sbool, Sfix, Su32, Su8, TriggerVar, Var};
use crate::synth_modules::{adsr_envelope_exp_01, adsr_envelope_lin_01, amplify,
    asr_envelope_lin_01, biquad_filter, clock, moving_average_filter, oscillator, sample_and_hold,
    sample_player, state_variable_filter_first_order, sum, synth_sequencer, trigger_sequencer_8,
    weighted_sum};
use crate::value::{Sample, Value, Waveform};

verus! {

/// The indices of the nodes that a list of handles names.
pub open spec fn ids_spec<T: Sample>(signals: Seq<BufferedSignal<T>>) -> Seq<usize> {
    Seq::new(signals.len(), |i: int| signals[i].id())
}

pub fn ids<T: Sample>(signals: &Vec<BufferedSignal<T>>) -> (r: Vec<usize>)
    ensures
        r@ == ids_spec(signals@),
{
    let mut r: Vec<usize> = Vec::new();
    let mut i: usize = 0;
    while i < signals.len()
        invariant
            i <= signals.len(),
            r@.len() == i,
            forall|j: int| 0 <= j < i ==> r@[j] == signals@[j].id(),
        decreases signals.len() - i,
    {
        r.push(signals[i].index());
        i += 1;
    }
    assert(r@ =~= ids_spec(signals@));
    r
}

/// A signal that is always `value`.
pub fn const_<T: Sample + Copy, S: SignalTrait>(graph: &mut Graph<S>, value: T) -> (s:
    BufferedSignal<T>)
    ensures
        s.id() == old(graph)@.nodes.len(),
        final(graph)@ == old(graph)@.with_node(NodeView::Const(value.to_value())),
{
    Const::new(value).buffered_signal(graph)
}

/// A cell that holds `value`, and a signal of what it holds.
pub fn var<T: Sample, S: SignalTrait>(graph: &mut Graph<S>, value: T) -> (r: (
    BufferedSignal<T>,
    Var<T>,
))
    ensures
        r.0.id() == old(graph)@.nodes.len(),
        r.1.cell_id() == old(graph)@.cells.len(),
        final(graph)@ == old(graph)@.with_new_cell(value.to_value()).with_node(
            NodeView::Var { cell: r.1.cell_id() },
        ),
{
    let var = Var::new(graph, value);
    (var.buffered_signal(graph), var)
}

/// An event cell, and the signal that is `true` in the tick after it was set.
pub fn trigger_var<S: SignalTrait>(graph: &mut Graph<S>) -> (r: (Sbool, TriggerVar))
    ensures
        r.0.id() == old(graph)@.nodes.len(),
        r.1.var.cell_id() == old(graph)@.cells.len(),
        final(graph)@ == old(graph)@.with_new_cell(Value::Bool(false)).with_node(
            NodeView::TriggerVar { cell: r.1.var.cell_id() },
        ),
{
    let var = TriggerVar::new(graph);
    (var.buffered_signal(graph), var)
}

/// A low-frequency oscillator: an oscillator whose phase goes to
/// `reset_offset_01` whenever `reset_trigger` fires.
pub fn lfo<S: SignalTrait>(
    graph: &mut Graph<S>,
    waveform: BufferedSignal<Waveform>,
    frequency_hz: Sfix,
    reset_trigger: Sbool,
    reset_offset_01: Sfix,
    square_wave_pulse_width_01: Sfix,
    sine: S,
) -> (s: Sfix)
    ensures
        s.id() == old(graph)@.nodes.len(),
        final(graph)@ == old(graph)@.with_node(
            NodeView::Oscillator(
                oscillator::Signal {
                    props: oscillator::Props {
                        waveform: waveform.id(),
                        frequency_hz: frequency_hz.id(),
                        reset_trigger: reset_trigger.id(),
                        reset_offset_01: reset_offset_01.id(),
                        square_wave_pulse_width_01: square_wave_pulse_width_01.id(),
                    },
                    state: None,
                    sine,
                },
            ),
        ),
{
    let props = oscillator::Props {
        waveform: waveform.index(),
        frequency_hz: frequency_hz.index(),
        reset_trigger: reset_trigger.index(),
        reset_offset_01: reset_offset_01.index(),
        square_wave_pulse_width_01: square_wave_pulse_width_01.index(),
    };
    BufferedSignal::new(graph, Node::Oscillator(oscillator::Signal::new(props, sine)))
}

/// A low-frequency oscillator whose samples lie in `[0, 1]`: the samples of
/// `lfo`, plus one, halved.
pub fn lfo_01<S: SignalTrait>(
    graph: &mut Graph<S>,
    waveform: BufferedSignal<Waveform>,
    frequency_hz: Sfix,
    reset_trigger: Sbool,
    reset_offset_01: Sfix,
    square_wave_pulse_width_01: Sfix,
    sine: S,
) -> (s: Sfix)
    ensures
        s.id() == old(graph)@.nodes.len() + 2,
        final(graph)@ == old(graph)@.with_node(
            NodeView::Oscillator(
                oscillator::Signal {
                    props: oscillator::Props {
                        waveform: waveform.id(),
                        frequency_hz: frequency_hz.id(),
                        reset_trigger: reset_trigger.id(),
                        reset_offset_01: reset_offset_01.id(),
                        square_wave_pulse_width_01: square_wave_pulse_width_01.id(),
                    },
                    state: None,
                    sine,
                },
            ),
        ).with_node(
            NodeView::Apply { signal: old(graph)@.nodes.len() as usize, f: MapFn::Offset(ONE) },
        ).with_node(
            NodeView::Apply {
                signal: (old(graph)@.nodes.len() + 1) as usize,
                f: MapFn::Scale(crate::fixed::HALF),
            },
        ),
{
    let raw = lfo(
        graph,
        waveform,
        frequency_hz,
        reset_trigger,
        reset_offset_01,
        square_wave_pulse_width_01,
        sine,
    );
    let lifted: Sfix = raw.map(graph, MapFn::Offset(ONE));
    lifted.map(graph, MapFn::Scale(crate::fixed::HALF))
}

/// The graph after `oscillator`: a constant `false` for the reset trigger, a
/// constant zero for the reset offset, then the oscillator.
pub open spec fn oscillator_spec<S: SignalTrait>(
    g: GraphView<S>,
    waveform: usize,
    frequency_hz: usize,
    square_wave_pulse_width_01: usize,
    sine: S,
) -> GraphView<S> {
    g.with_node(NodeView::Const(Value::Bool(false))).with_node(
        NodeView::Const(Value::Num(0)),
    ).with_node(
        NodeView::Oscillator(
            oscillator::Signal {
                props: oscillator::Props {
                    waveform,
                    frequency_hz,
                    reset_trigger: g.nodes.len() as usize,
                    reset_offset_01: (g.nodes.len() + 1) as usize,
                    square_wave_pulse_width_01,
                },
                state: None,
                sine,
            },
        ),
    )
}

/// A free-running oscillator that starts at phase zero.
pub fn oscillator<S: SignalTrait>(
    graph: &mut Graph<S>,
    waveform: BufferedSignal<Waveform>,
    frequency_hz: Sfix,
    square_wave_pulse_width_01: Sfix,
    sine: S,
) -> (s: Sfix)
    ensures
        s.id() == old(graph)@.nodes.len() + 2,
        final(graph)@ == oscillator_spec(
            old(graph)@,
            waveform.id(),
            frequency_hz.id(),
            square_wave_pulse_width_01.id(),
            sine,
        ),
{
    let reset_trigger = const_(graph, false);
    let reset_offset_01 = const_(graph, 0i64);
    lfo(
        graph,
        waveform,
        frequency_hz,
        reset_trigger,
        reset_offset_01,
        square_wave_pulse_width_01,
        sine,
    )
}

/// The graph after an oscillator of a fixed waveform: a constant for the
/// waveform, and where `pulse_width` names none, a constant zero for the
/// pulse width; then the nodes of `oscillator`.
pub open spec fn fixed_oscillator_spec<S: SignalTrait>(
    g: GraphView<S>,
    waveform: Waveform,
    frequency_hz: usize,
    pulse_width: Option<usize>,
    sine: S,
) -> GraphView<S> {
    let g1 = g.with_node(NodeView::Const(Value::Wave(waveform)));
    match pulse_width {
        Some(p) => oscillator_spec(g1, g.nodes.len() as usize, frequency_hz, p, sine),
        None => oscillator_spec(
            g1.with_node(NodeView::Const(Value::Num(0))),
            g.nodes.len() as usize,
            frequency_hz,
            (g.nodes.len() + 1) as usize,
            sine,
        ),
    }
}

/// An oscillator whose sine comes from `sine`.
pub fn sine_oscillator<S: SignalTrait>(graph: &mut Graph<S>, frequency_hz: Sfix, sine: S) -> (s:
    Sfix)
    ensures
        s.id() == old(graph)@.nodes.len() + 4,
        final(graph)@ == fixed_oscillator_spec(
            old(graph)@,
            Waveform::Sine,
            frequency_hz.id(),
            None,
            sine,
        ),
{
    let waveform = const_(graph, Waveform::Sine);
    let pulse_width = const_(graph, 0i64);
    oscillator(graph, waveform, frequency_hz, pulse_width, sine)
}

/// A square oscillator: minus one while the phase is below the pulse width, else one.
pub fn square_oscillator<S: SignalTrait>(
    graph: &mut Graph<S>,
    frequency_hz: Sfix,
    pulse_width_01: Sfix,
    sine: S,
) -> (s: Sfix)
    ensures
        s.id() == old(graph)@.nodes.len() + 3,
        final(graph)@ == fixed_oscillator_spec(
            old(graph)@,
            Waveform::Square,
            frequency_hz.id(),
            Some(pulse_width_01.id()),
            sine,
        ),
{
    let waveform = const_(graph, Waveform::Square);
    oscillator(graph, waveform, frequency_hz, pulse_width_01, sine)
}

/// A sawtooth oscillator.
pub fn saw_oscillator<S: SignalTrait>(graph: &mut Graph<S>, frequency_hz: Sfix, sine: S) -> (s:
    Sfix)
    ensures
        s.id() == old(graph)@.nodes.len() + 4,
        final(graph)@ == fixed_oscillator_spec(
            old(graph)@,
            Waveform::Saw,
            frequency_hz.id(),
            None,
            sine,
        ),
{
    let waveform = const_(graph, Waveform::Saw);
    let pulse_width = const_(graph, 0i64);
    oscillator(graph, waveform, frequency_hz, pulse_width, sine)
}

/// A triangle oscillator.
pub fn triangle_oscillator<S: SignalTrait>(graph: &mut Graph<S>, frequency_hz: Sfix, sine: S) -> (s:
    Sfix)
    ensures
        s.id() == old(graph)@.nodes.len() + 4,
        final(graph)@ == fixed_oscillator_spec(
            old(graph)@,
            Waveform::Triangle,
            frequency_hz.id(),
            None,
            sine,
        ),
{
    let waveform = const_(graph, Waveform::Triangle);
    let pulse_width = const_(graph, 0i64);
    oscillator(graph, waveform, frequency_hz, pulse_width, sine)
}

/// The sum of `values`.
pub fn sum<S: SignalTrait>(graph: &mut Graph<S>, values: Vec<Sfix>) -> (s: Sfix)
    ensures
        s.id() == old(graph)@.nodes.len(),
        final(graph)@ == old(graph)@.with_node(
            NodeView::Sum(sum::PropsView { signals: ids_spec(values@) }),
        ),
{
    let signals = ids(&values);
    BufferedSignal::new(graph, Node::Sum(sum::Props::new(signals)))
}

/// The weighted mean of the signals in `weighted_signals`.
pub fn weighted_sum<S: SignalTrait>(
    graph: &mut Graph<S>,
    weighted_signals: Vec<weighted_sum::WeightedSignal>,
) -> (s: Sfix)
    ensures
        s.id() == old(graph)@.nodes.len(),
        final(graph)@ == old(graph)@.with_node(
            NodeView::WeightedSum(
                weighted_sum::PropsView { weighted_signals: weighted_signals@ },
            ),
        ),
{
    BufferedSignal::new(graph, Node::WeightedSum(weighted_sum::Props::new(weighted_signals)))
}

/// The mix of `left` and `right` in which `left` weighs `left_weight` and
/// `right` weighs one minus that.
pub fn weighted_sum_pair<S: SignalTrait>(
    graph: &mut Graph<S>,
    left_weight: Sfix,
    left: Sfix,
    right: Sfix,
) -> (s: Sfix)
    ensures
        s.id() == old(graph)@.nodes.len() + 1,
        final(graph)@ == old(graph)@.with_node(
            NodeView::Apply { signal: left_weight.id(), f: MapFn::Complement },
        ).with_node(
            NodeView::WeightedSum(
                weighted_sum::PropsView {
                    weighted_signals: seq![
                        weighted_sum::WeightedSignal { weight: left_weight.id(), signal: left.id() },
                        weighted_sum::WeightedSignal {
                            weight: old(graph)@.nodes.len() as usize,
                            signal: right.id(),
                        },
                    ],
                },
            ),
        ),
{
    let right_weight: Sfix = left_weight.map(graph, MapFn::Complement);
    let mut weighted_signals: Vec<weighted_sum::WeightedSignal> = Vec::new();
    weighted_signals.push(
        weighted_sum::WeightedSignal { weight: left_weight.index(), signal: left.index() },
    );
    weighted_signals.push(
        weighted_sum::WeightedSignal { weight: right_weight.index(), signal: right.index() },
    );
    assert(weighted_signals@ =~= seq![
        weighted_sum::WeightedSignal { weight: left_weight.id(), signal: left.id() },
        weighted_sum::WeightedSignal { weight: old(graph)@.nodes.len() as usize, signal: right.id() },
    ]);
    weighted_sum(graph, weighted_signals)
}

/// The mix of `left` and `right` in which `left` weighs the constant `left_weight`.
pub fn weighted_sum_const_pair<S: SignalTrait>(
    graph: &mut Graph<S>,
    left_weight: i64,
    left: Sfix,
    right: Sfix,
) -> (s: Sfix)
    ensures
        s.id() == old(graph)@.nodes.len() + 2,
        final(graph)@ == old(graph)@.with_node(NodeView::Const(Value::Num(left_weight))).with_node(
            NodeView::Apply { signal: old(graph)@.nodes.len() as usize, f: MapFn::Complement },
        ).with_node(
            NodeView::WeightedSum(
                weighted_sum::PropsView {
                    weighted_signals: seq![
                        weighted_sum::WeightedSignal {
                            weight: old(graph)@.nodes.len() as usize,
                            signal: left.id(),
                        },
                        weighted_sum::WeightedSignal {
                            weight: (old(graph)@.nodes.len() + 1) as usize,
                            signal: right.id(),
                        },
                    ],
                },
            ),
        ),
{
    let weight = const_(graph, left_weight);
    weighted_sum_pair(graph, weight, left, right)
}

/// `signal` times `by`, silent where `by` is within 1/64 of zero.
pub fn amplify<S: SignalTrait>(graph: &mut Graph<S>, signal: Sfix, by: Sfix) -> (s: Sfix)
    ensures
        s.id() == old(graph)@.nodes.len(),
        final(graph)@ == old(graph)@.with_node(
            NodeView::Amplify(amplify::Props { signal: signal.id(), by: by.id() }),
        ),
{
    BufferedSignal::new(
        graph,
        Node::Amplify(amplify::Props { signal: signal.index(), by: by.index() }),
    )
}

/// A linear attack-release envelope that starts at zero.
pub fn asr_envelope_lin_01<S: SignalTrait>(
    graph: &mut Graph<S>,
    gate: Sbool,
    attack_seconds: Sfix,
    release_seconds: Sfix,
) -> (s: Sfix)
    ensures
        s.id() == old(graph)@.nodes.len(),
        final(graph)@ == old(graph)@.with_node(
            NodeView::AsrEnvelopeLin01(
                asr_envelope_lin_01::Signal {
                    props: asr_envelope_lin_01::Props {
                        gate: gate.id(),
                        attack_seconds: attack_seconds.id(),
                        release_seconds: release_seconds.id(),
                    },
                    current_value: 0,
                },
            ),
        ),
{
    let props = asr_envelope_lin_01::Props {
        gate: gate.index(),
        attack_seconds: attack_seconds.index(),
        release_seconds: release_seconds.index(),
    };
    BufferedSignal::new(graph, Node::AsrEnvelopeLin01(asr_envelope_lin_01::Signal::new(props)))
}

/// A linear attack-decay-sustain-release envelope that starts at zero.
pub fn adsr_envelope_lin_01<S: SignalTrait>(
    graph: &mut Graph<S>,
    gate: Sbool,
    attack_seconds: Sfix,
    decay_seconds: Sfix,
    sustain_01: Sfix,
    release_seconds: Sfix,
) -> (s: Sfix)
    ensures
        s.id() == old(graph)@.nodes.len(),
        final(graph)@ == old(graph)@.with_node(
            NodeView::AdsrEnvelopeLin01(
                adsr_envelope_lin_01::Signal {
                    props: adsr_envelope_lin_01::Props {
                        gate: gate.id(),
                        attack_seconds: attack_seconds.id(),
                        decay_seconds: decay_seconds.id(),
                        sustain_01: sustain_01.id(),
                        release_seconds: release_seconds.id(),
                    },
                    current_value: 0,
                    crossed_threshold: false,
                },
            ),
        ),
{
    let props = adsr_envelope_lin_01::Props {
        gate: gate.index(),
        attack_seconds: attack_seconds.index(),
        decay_seconds: decay_seconds.index(),
        sustain_01: sustain_01.index(),
        release_seconds: release_seconds.index(),
    };
    BufferedSignal::new(graph, Node::AdsrEnvelopeLin01(adsr_envelope_lin_01::Signal::new(props)))
}

/// An exponential attack-decay-sustain-release envelope that starts at zero.
pub fn adsr_envelope_exp_01<S: SignalTrait>(
    graph: &mut Graph<S>,
    gate: Sbool,
    attack_seconds: Sfix,
    decay_seconds: Sfix,
    sustain_level_01: Sfix,
    release_seconds: Sfix,
) -> (s: Sfix)
    ensures
        s.id() == old(graph)@.nodes.len(),
        final(graph)@ == old(graph)@.with_node(
            NodeView::AdsrEnvelopeExp01(
                adsr_envelope_exp_01::Signal {
                    props: adsr_envelope_exp_01::Props {
                        gate: gate.id(),
                        attack_seconds: attack_seconds.id(),
                        decay_seconds: decay_seconds.id(),
                        sustain_level_01: sustain_level_01.id(),
                        release_seconds: release_seconds.id(),
                    },
                    in_attack: false,
                    prev_gate: false,
                    current_value: 0,
                },
            ),
        ),
{
    let props = adsr_envelope_exp_01::Props {
        gate: gate.index(),
        attack_seconds: attack_seconds.index(),
        decay_seconds: decay_seconds.index(),
        sustain_level_01: sustain_level_01.index(),
        release_seconds: release_seconds.index(),
    };
    BufferedSignal::new(graph, Node::AdsrEnvelopeExp01(adsr_envelope_exp_01::Signal::new(props)))
}

/// The mean of the last `width` samples of `signal`; a width of zero
/// counts as one.
pub fn moving_average_low_pass_filter<S: SignalTrait>(
    graph: &mut Graph<S>,
    signal: Sfix,
    width: Su32,
) -> (s: Sfix)
    ensures
        s.id() == old(graph)@.nodes.len(),
        final(graph)@ == old(graph)@.with_node(
            NodeView::MovingAverageFilter(
                moving_average_filter::SignalView {
                    props: moving_average_filter::Props { signal: signal.id(), width: width.id() },
                    buffer: Seq::empty(),
                    high_pass: false,
                },
            ),
        ),
{
    let props = moving_average_filter::Props { signal: signal.index(), width: width.index() };
    BufferedSignal::new(
        graph,
        Node::MovingAverageFilter(moving_average_filter::Signal::new(props, false)),
    )
}

/// `signal` less the mean of its last `width` samples; a width of zero
/// counts as one.
pub fn moving_average_high_pass_filter<S: SignalTrait>(
    graph: &mut Graph<S>,
    signal: Sfix,
    width: Su32,
) -> (s: Sfix)
    ensures
        s.id() == old(graph)@.nodes.len(),
        final(graph)@ == old(graph)@.with_node(
            NodeView::MovingAverageFilter(
                moving_average_filter::SignalView {
                    props: moving_average_filter::Props { signal: signal.id(), width: width.id() },
                    buffer: Seq::empty(),
                    high_pass: true,
                },
            ),
        ),
{
    let props = moving_average_filter::Props { signal: signal.index(), width: width.index() };
    BufferedSignal::new(
        graph,
        Node::MovingAverageFilter(moving_average_filter::Signal::new(props, true)),
    )
}

/// The three taps of a state-variable filter. They share one node, so
/// sampling any of them in a tick advances the filter once.
pub fn state_variable_filter_first_order<S: SignalTrait>(
    graph: &mut Graph<S>,
    signal: Sfix,
    cutoff_01: Sfix,
    resonance_01: Sfix,
) -> (taps: state_variable_filter_first_order::Parts<Sfix>)
    ensures
        taps.low_pass.id() == old(graph)@.nodes.len() + 1,
        taps.band_pass.id() == old(graph)@.nodes.len() + 2,
        taps.high_pass.id() == old(graph)@.nodes.len() + 3,
        final(graph)@ == old(graph)@.with_node(
            NodeView::StateVariableFilter(
                state_variable_filter_first_order::Signal {
                    props: state_variable_filter_first_order::PropsGen {
                        signal: signal.id(),
                        cutoff_01: cutoff_01.id(),
                        resonance_01: resonance_01.id(),
                    },
                    state: state_variable_filter_first_order::Parts {
                        low_pass: 0,
                        band_pass: 0,
                        high_pass: 0,
                    },
                },
            ),
        ).with_node(
            NodeView::Apply { signal: old(graph)@.nodes.len() as usize, f: MapFn::First },
        ).with_node(
            NodeView::Apply { signal: old(graph)@.nodes.len() as usize, f: MapFn::Second },
        ).with_node(
            NodeView::Apply { signal: old(graph)@.nodes.len() as usize, f: MapFn::Third },
        ),
{
    let props = state_variable_filter_first_order::PropsGen {
        signal: signal.index(),
        cutoff_01: cutoff_01.index(),
        resonance_01: resonance_01.index(),
    };
    let parts: BufferedSignal<(i64, i64, i64)> = BufferedSignal::new(
        graph,
        Node::StateVariableFilter(state_variable_filter_first_order::Signal::new(props)),
    );
    let low_pass: Sfix = parts.map(graph, MapFn::First);
    let band_pass: Sfix = parts.map(graph, MapFn::Second);
    let high_pass: Sfix = parts.map(graph, MapFn::Third);
    state_variable_filter_first_order::Parts { low_pass, band_pass, high_pass }
}

/// A cascade of `filter_order_half` second-order sections, all at rest at
/// the start; section `i` takes its coefficients from `coefficients[i]`.
/// With no section the filter hands `signal` on unchanged.
pub fn biquad_filter<S: SignalTrait>(
    graph: &mut Graph<S>,
    signal: Sfix,
    coefficients: Vec<BufferedSignal<(i64, i64, i64)>>,
    pass: biquad_filter::Pass,
    filter_order_half: usize,
) -> (s: Sfix)
    ensures
        s.id() == old(graph)@.nodes.len(),
        final(graph)@ == old(graph)@.with_node(
            NodeView::BiquadFilter(
                biquad_filter::SignalView {
                    signal: signal.id(),
                    coefficients: ids_spec(coefficients@),
                    pass,
                    buffer: biquad_filter::rest_spec(filter_order_half as nat),
                },
            ),
        ),
{
    let props = biquad_filter::Props { signal: signal.index(), coefficients: ids(&coefficients) };
    BufferedSignal::new(
        graph,
        Node::BiquadFilter(biquad_filter::Signal::new(props, pass, filter_order_half)),
    )
}

/// The nodes that a design signal is wired to: one, or two.
pub open spec fn design_inputs_spec(first: usize, second: Option<usize>) -> Seq<usize> {
    match second {
        Some(s) => seq![first, s],
        None => seq![first],
    }
}

/// The graph after the first `n` of `designs` have been added, each as a
/// signal of the caller's own that is wired to `inputs`.
pub open spec fn designed<S: SignalTrait>(
    g: GraphView<S>,
    inputs: Seq<usize>,
    designs: Seq<S>,
    n: nat,
) -> GraphView<S>
    decreases n,
{
    if n == 0 || n > designs.len() {
        g
    } else {
        designed(g, inputs, designs, (n - 1) as nat).with_node(
            NodeView::Custom { inputs, custom: designs[n - 1] },
        )
    }
}

/// The indices of `n` nodes in a row, from `first` on.
pub open spec fn span_spec(first: int, n: nat) -> Seq<usize> {
    Seq::new(n, |i: int| (first + i) as usize)
}

/// Adds one design signal for each section of a filter, all wired to the
/// same inputs, and returns their handles in the order of the sections.
fn add_designs<S: SignalTrait>(
    graph: &mut Graph<S>,
    first: usize,
    second: Option<usize>,
    designs: Vec<S>,
) -> (sections: Vec<BufferedSignal<(i64, i64, i64)>>)
    ensures
        final(graph)@ == designed(
            old(graph)@,
            design_inputs_spec(first, second),
            designs@,
            designs@.len(),
        ),
        final(graph)@.nodes.len() == old(graph)@.nodes.len() + designs@.len(),
        ids_spec(sections@) == span_spec(old(graph)@.nodes.len() as int, designs@.len()),
{
    let ghost all = designs@;
    let ghost inputs_seq = design_inputs_spec(first, second);
    let mut rest = designs;
    let mut sections: Vec<BufferedSignal<(i64, i64, i64)>> = Vec::new();
    let n = rest.len();
    let mut j: usize = 0;
    while j < n
        invariant
            j <= n,
            n == all.len(),
            rest@ == all.subrange(j as int, n as int),
            inputs_seq == design_inputs_spec(first, second),
            graph@ == designed(old(graph)@, inputs_seq, all, j as nat),
            graph@.nodes.len() == old(graph)@.nodes.len() + j,
            sections@.len() == j,
            forall|i: int| 0 <= i < j ==> (#[trigger] sections@[i]).id() == old(graph)@.nodes.len() + i,
        decreases n - j,
    {
        let design = rest.remove(0);
        assert(design == all[j as int]);
        assert(rest@ =~= all.subrange(j + 1, n as int));
        let mut inputs: Vec<usize> = Vec::new();
        inputs.push(first);
        match second {
            Some(s) => {
                inputs.push(s);
            },
            None => {},
        }
        assert(inputs@ =~= inputs_seq);
        let section: BufferedSignal<(i64, i64, i64)> = BufferedSignal::new(
            graph,
            Node::Custom { inputs, custom: design },
        );
        sections.push(section);
        j += 1;
    }
    assert(ids_spec(sections@) =~= span_spec(old(graph)@.nodes.len() as int, all.len()));
    sections
}

/// The graph after a Butterworth filter: the half-power frequency as a
/// share of the sample rate; that share kept at or above its least value;
/// one design signal for each section, handed that share; then the filter
/// of as many sections.
pub open spec fn butterworth_spec<S: SignalTrait>(
    g: GraphView<S>,
    signal: usize,
    half_power_frequency_hz: usize,
    pass: biquad_filter::Pass,
    designs: Seq<S>,
) -> GraphView<S> {
    let n = g.nodes.len();
    designed(
        g.with_node(
            NodeView::Apply { signal: half_power_frequency_hz, f: MapFn::OverSampleRate },
        ).with_node(
            NodeView::Apply {
                signal: n as usize,
                f: MapFn::Clamp(biquad_filter::CUTOFF_MIN, i64::MAX),
            },
        ),
        seq![(n + 1) as usize],
        designs,
        designs.len(),
    ).with_node(
        NodeView::BiquadFilter(
            biquad_filter::SignalView {
                signal,
                coefficients: span_spec((n + 2) as int, designs.len()),
                pass,
                buffer: biquad_filter::rest_spec(designs.len()),
            },
        ),
    )
}

fn butterworth_filter<S: SignalTrait>(
    graph: &mut Graph<S>,
    signal: Sfix,
    half_power_frequency_hz: Sfix,
    pass: biquad_filter::Pass,
    designs: Vec<S>,
) -> (s: Sfix)
    ensures
        s.id() == old(graph)@.nodes.len() + 2 + designs@.len(),
        final(graph)@ == butterworth_spec(
            old(graph)@,
            signal.id(),
            half_power_frequency_hz.id(),
            pass,
            designs@,
        ),
{
    let filter_order_half = designs.len();
    let share: Sfix = half_power_frequency_hz.map(graph, MapFn::OverSampleRate);
    let cutoff: Sfix = share.map(graph, MapFn::Clamp(biquad_filter::CUTOFF_MIN, i64::MAX));
    assert(design_inputs_spec(cutoff.id(), None) =~= seq![(old(graph)@.nodes.len() + 1) as usize]);
    let coefficients = add_designs(graph, cutoff.index(), None, designs);
    biquad_filter(graph, signal, coefficients, pass, filter_order_half)
}

/// A Butterworth low pass with one section for each of `designs`; with
/// none it hands `signal` on unchanged. In every tick design `i` is handed
/// the half-power frequency as a share of the sample rate, at least 0.001,
/// and yields the coefficients `a`, `d1` and `d2` of section `i` as a triple.
pub fn butterworth_low_pass_filter<S: SignalTrait>(
    graph: &mut Graph<S>,
    signal: Sfix,
    half_power_frequency_hz: Sfix,
    designs: Vec<S>,
) -> (s: Sfix)
    ensures
        s.id() == old(graph)@.nodes.len() + 2 + designs@.len(),
        final(graph)@ == butterworth_spec(
            old(graph)@,
            signal.id(),
            half_power_frequency_hz.id(),
            biquad_filter::Pass::Low,
            designs@,
        ),
{
    butterworth_filter(graph, signal, half_power_frequency_hz, biquad_filter::Pass::Low, designs)
}

/// A Butterworth high pass with one section for each of `designs`; with
/// none it hands `signal` on unchanged. In every tick design `i` is handed
/// the half-power frequency as a share of the sample rate, at least 0.001,
/// and yields the coefficients `a`, `d1` and `d2` of section `i` as a triple.
pub fn butterworth_high_pass_filter<S: SignalTrait>(
    graph: &mut Graph<S>,
    signal: Sfix,
    half_power_frequency_hz: Sfix,
    designs: Vec<S>,
) -> (s: Sfix)
    ensures
        s.id() == old(graph)@.nodes.len() + 2 + designs@.len(),
        final(graph)@ == butterworth_spec(
            old(graph)@,
            signal.id(),
            half_power_frequency_hz.id(),
            biquad_filter::Pass::High,
            designs@,
        ),
{
    butterworth_filter(graph, signal, half_power_frequency_hz, biquad_filter::Pass::High, designs)
}

/// The graph after the sections of a Chebyshev filter: the cutoff as a
/// share of the sample rate; that share and the ripple, each kept at or
/// above its least value; one design signal for each section, handed both;
/// then the filter of as many sections.
pub open spec fn chebyshev_sections_spec<S: SignalTrait>(
    g: GraphView<S>,
    signal: usize,
    cutoff_hz: usize,
    epsilon: usize,
    pass: biquad_filter::Pass,
    designs: Seq<S>,
) -> GraphView<S> {
    let n = g.nodes.len();
    designed(
        g.with_node(NodeView::Apply { signal: cutoff_hz, f: MapFn::OverSampleRate }).with_node(
            NodeView::Apply {
                signal: n as usize,
                f: MapFn::Clamp(biquad_filter::CUTOFF_MIN, i64::MAX),
            },
        ).with_node(
            NodeView::Apply {
                signal: epsilon,
                f: MapFn::Clamp(biquad_filter::EPSILON_MIN, i64::MAX),
            },
        ),
        seq![(n + 1) as usize, (n + 2) as usize],
        designs,
        designs.len(),
    ).with_node(
        NodeView::BiquadFilter(
            biquad_filter::SignalView {
                signal,
                coefficients: span_spec((n + 3) as int, designs.len()),
                pass,
                buffer: biquad_filter::rest_spec(designs.len()),
            },
        ),
    )
}

/// The graph after a Chebyshev filter: its sections, and where there is at
/// least one, the signal that gives the filter's gain for the ripple, and
/// the filter's sample over that gain. A filter without sections is left
/// as it is, and `gain` is not used.
pub open spec fn chebyshev_spec<S: SignalTrait>(
    g: GraphView<S>,
    signal: usize,
    cutoff_hz: usize,
    epsilon: usize,
    pass: biquad_filter::Pass,
    designs: Seq<S>,
    gain: S,
) -> GraphView<S> {
    let n = g.nodes.len();
    let k = designs.len();
    let sections = chebyshev_sections_spec(g, signal, cutoff_hz, epsilon, pass, designs);
    if k == 0 {
        sections
    } else {
        sections.with_node(
            NodeView::Custom { inputs: seq![(n + 2) as usize], custom: gain },
        ).with_node(
            NodeView::Both { left: (n + 3 + k) as usize, right: (n + 4 + k) as usize },
        ).with_node(NodeView::Apply { signal: (n + 5 + k) as usize, f: MapFn::Div })
    }
}

/// The index of the node that a Chebyshev filter of `k` sections yields,
/// in a graph that had `n` nodes before.
pub open spec fn chebyshev_id_spec(n: int, k: int) -> int {
    if k == 0 {
        n + 3
    } else {
        n + 6 + k
    }
}

fn chebyshev_filter<S: SignalTrait>(
    graph: &mut Graph<S>,
    signal: Sfix,
    cutoff_hz: Sfix,
    epsilon: Sfix,
    pass: biquad_filter::Pass,
    designs: Vec<S>,
    gain: S,
) -> (s: Sfix)
    ensures
        s.id() == chebyshev_id_spec(old(graph)@.nodes.len() as int, designs@.len() as int),
        final(graph)@ == chebyshev_spec(
            old(graph)@,
            signal.id(),
            cutoff_hz.id(),
            epsilon.id(),
            pass,
            designs@,
            gain,
        ),
{
    let filter_order_half = designs.len();
    let share: Sfix = cutoff_hz.map(graph, MapFn::OverSampleRate);
    let cutoff: Sfix = share.map(graph, MapFn::Clamp(biquad_filter::CUTOFF_MIN, i64::MAX));
    let ripple: Sfix = epsilon.map(graph, MapFn::Clamp(biquad_filter::EPSILON_MIN, i64::MAX));
    assert(design_inputs_spec(cutoff.id(), Some(ripple.id())) =~= seq![
        (old(graph)@.nodes.len() + 1) as usize,
        (old(graph)@.nodes.len() + 2) as usize,
    ]);
    let coefficients = add_designs(graph, cutoff.index(), Some(ripple.index()), designs);
    let scaled = biquad_filter(graph, signal, coefficients, pass, filter_order_half);
    if filter_order_half == 0 {
        return scaled;
    }
    let mut of_ripple: Vec<usize> = Vec::new();
    of_ripple.push(ripple.index());
    assert(of_ripple@ =~= seq![(old(graph)@.nodes.len() + 2) as usize]);
    let factor: Sfix = BufferedSignal::new(graph, Node::Custom { inputs: of_ripple, custom: gain });
    let pair = scaled.both(graph, &factor);
    pair.map(graph, MapFn::Div)
}

/// A Chebyshev low pass with one section for each of `designs` and a ripple
/// of at least 0.01; with no section it hands `signal` on unchanged. In
/// every tick design `i` is handed the cutoff as a share of the sample
/// rate, at least 0.001, and the ripple, and yields the coefficients of
/// section `i` as a triple; `gain` is handed the ripple and yields the gain
/// that the filter's sample is divided by.
pub fn chebyshev_low_pass_filter<S: SignalTrait>(
    graph: &mut Graph<S>,
    signal: Sfix,
    cutoff_hz: Sfix,
    epsilon: Sfix,
    designs: Vec<S>,
    gain: S,
) -> (s: Sfix)
    ensures
        s.id() == chebyshev_id_spec(old(graph)@.nodes.len() as int, designs@.len() as int),
        final(graph)@ == chebyshev_spec(
            old(graph)@,
            signal.id(),
            cutoff_hz.id(),
            epsilon.id(),
            biquad_filter::Pass::Low,
            designs@,
            gain,
        ),
{
    chebyshev_filter(graph, signal, cutoff_hz, epsilon, biquad_filter::Pass::Low, designs, gain)
}

/// A Chebyshev high pass with one section for each of `designs` and a
/// ripple of at least 0.01; with no section it hands `signal` on unchanged.
/// In every tick design `i` is handed the cutoff as a share of the sample
/// rate, at least 0.001, and the ripple, and yields the coefficients of
/// section `i` as a triple; `gain` is handed the ripple and yields the gain
/// that the filter's sample is divided by.
pub fn chebyshev_high_pass_filter<S: SignalTrait>(
    graph: &mut Graph<S>,
    signal: Sfix,
    cutoff_hz: Sfix,
    epsilon: Sfix,
    designs: Vec<S>,
    gain: S,
) -> (s: Sfix)
    ensures
        s.id() == chebyshev_id_spec(old(graph)@.nodes.len() as int, designs@.len() as int),
        final(graph)@ == chebyshev_spec(
            old(graph)@,
            signal.id(),
            cutoff_hz.id(),
            epsilon.id(),
            biquad_filter::Pass::High,
            designs@,
            gain,
        ),
{
    chebyshev_filter(graph, signal, cutoff_hz, epsilon, biquad_filter::Pass::High, designs, gain)
}

/// The sample that `signal` had when `trigger` last fired; zero before that.
pub fn sample_and_hold<S: SignalTrait>(graph: &mut Graph<S>, signal: Sfix, trigger: Sbool) -> (s:
    Sfix)
    ensures
        s.id() == old(graph)@.nodes.len(),
        final(graph)@ == old(graph)@.with_node(
            NodeView::SampleAndHold(
                sample_and_hold::Signal {
                    props: sample_and_hold::Props { signal: signal.id(), trigger: trigger.id() },
                    last_sample: 0,
                },
            ),
        ),
{
    let props = sample_and_hold::Props { signal: signal.index(), trigger: trigger.index() };
    BufferedSignal::new(graph, Node::SampleAndHold(sample_and_hold::Signal::new(props)))
}

/// A pulse of one tick at the start of every cycle of a free-running clock.
pub fn clock<S: SignalTrait>(graph: &mut Graph<S>, frequency_hz: Sfix) -> (s: Sbool)
    ensures
        s.id() == old(graph)@.nodes.len() + 1,
        final(graph)@ == old(graph)@.with_node(
            NodeView::Clock(
                clock::Signal {
                    props: clock::Props { frequency_hz: frequency_hz.id() },
                    state: 0,
                },
            ),
        ).with_node(
            NodeView::Trigger { signal: old(graph)@.nodes.len() as usize, prev_sample: false },
        ),
{
    let props = clock::Props { frequency_hz: frequency_hz.index() };
    let level: Sbool = BufferedSignal::new(graph, Node::Clock(clock::Signal::new(props)));
    level.trigger(graph)
}

/// A signal of uniform noise in `[0, 1)`: a noise cell, a node that reads
/// it, and a node that turns what it holds into a number.
pub fn random_uniform<S: SignalTrait>(graph: &mut Graph<S>) -> (s: Sfix)
    ensures
        s.id() == old(graph)@.nodes.len() + 1,
        final(graph)@ == old(graph)@.with_noise_cell().with_node(
            NodeView::Var { cell: old(graph)@.cells.len() as usize },
        ).with_node(
            NodeView::Apply { signal: old(graph)@.nodes.len() as usize, f: MapFn::UnitInterval },
        ),
{
    let cell = graph.add_noise_cell();
    let raw: Su32 = BufferedSignal::new(graph, Node::Var { cell });
    raw.map(graph, MapFn::UnitInterval)
}

/// One step of a sequence: the signals of its frequency and of the time
/// that its gate is held.
pub struct SynthSequencerStep {
    pub frequency_hz: Sfix,
    pub period_seconds: Sfix,
}

/// What a sequencer yields.
pub struct SynthSequencerOutput {
    pub frequency_hz: Sfix,
    pub gate: Sbool,
}

/// The steps of a sequence by the indices of their nodes.
pub open spec fn steps_spec(sequence: Seq<SynthSequencerStep>) -> Seq<synth_sequencer::Step> {
    Seq::new(
        sequence.len(),
        |i: int|
            synth_sequencer::Step {
                frequency_hz: sequence[i].frequency_hz.id(),
                period_seconds: sequence[i].period_seconds.id(),
            },
    )
}

/// A step sequencer driven by `clock`, and signals of its two outputs.
pub fn synth_sequencer<S: SignalTrait>(
    graph: &mut Graph<S>,
    sequence: Vec<SynthSequencerStep>,
    clock: Sbool,
) -> (out: SynthSequencerOutput)
    ensures
        out.frequency_hz.id() == old(graph)@.nodes.len() + 1,
        out.gate.id() == old(graph)@.nodes.len() + 2,
        final(graph)@ == old(graph)@.with_node(
            NodeView::SynthSequencer(
                synth_sequencer::SignalView {
                    sequence: steps_spec(sequence@),
                    clock: clock.id(),
                    step_index: if sequence@.len() == 0 {
                        0
                    } else {
                        (sequence@.len() - 1) as usize
                    },
                    gate_remain_ticks: 0,
                },
            ),
        ).with_node(
            NodeView::Apply { signal: old(graph)@.nodes.len() as usize, f: MapFn::First },
        ).with_node(
            NodeView::Apply { signal: old(graph)@.nodes.len() as usize, f: MapFn::Second },
        ),
{
    let mut steps: Vec<synth_sequencer::Step> = Vec::new();
    let mut i: usize = 0;
    while i < sequence.len()
        invariant
            i <= sequence.len(),
            steps@.len() == i,
            forall|j: int| 0 <= j < i ==> steps@[j] == steps_spec(sequence@)[j],
        decreases sequence.len() - i,
    {
        steps.push(
            synth_sequencer::Step {
                frequency_hz: sequence[i].frequency_hz.index(),
                period_seconds: sequence[i].period_seconds.index(),
            },
        );
        i += 1;
    }
    assert(steps@ =~= steps_spec(sequence@));
    let props = synth_sequencer::Props { sequence: steps, clock: clock.index() };
    let combined_signal: BufferedSignal<(i64, bool)> = BufferedSignal::new(
        graph,
        Node::SynthSequencer(synth_sequencer::Signal::new(props)),
    );
    let frequency_hz: Sfix = combined_signal.map(graph, MapFn::First);
    let gate: Sbool = combined_signal.map(graph, MapFn::Second);
    SynthSequencerOutput { frequency_hz, gate }
}

/// A step sequencer of eight trigger channels driven by `clock`: channel `i`
/// pulses for one tick when the sequencer enters a step whose byte has bit
/// `i` set. Each channel is an edge detector on its bit, so a clock that is
/// held for several ticks running gives one pulse, not several.
pub fn trigger_sequencer_8<S: SignalTrait>(
    graph: &mut Graph<S>,
    sequence: Vec<Su8>,
    clock: Sbool,
) -> (channels: [Sbool; 8])
    ensures
        forall|i: int|
            0 <= i < 8 ==> (#[trigger] channels[i]).id() == old(graph)@.nodes.len() + 9 + i,
        final(graph)@ == edged(
            expanded(
                old(graph)@.with_node(
                    NodeView::TriggerSequencer8(
                        trigger_sequencer_8::SignalView {
                            sequence: ids_spec(sequence@),
                            clock: clock.id(),
                            step_index: if sequence@.len() == 0 {
                                0
                            } else {
                                (sequence@.len() - 1) as usize
                            },
                        },
                    ),
                ),
                old(graph)@.nodes.len() as usize,
                8,
            ),
            (old(graph)@.nodes.len() + 1) as usize,
            8,
        ),
{
    let props = trigger_sequencer_8::Props { sequence: ids(&sequence), clock: clock.index() };
    let byte: Su8 = BufferedSignal::new(
        graph,
        Node::TriggerSequencer8(trigger_sequencer_8::Signal::new(props)),
    );
    let bits = byte.expand(graph);
    reveal_with_fuel(expanded, 9);
    reveal_with_fuel(edged, 9);
    assert(graph@.nodes.len() == old(graph)@.nodes.len() + 9);
    let e0 = bits[0].trigger(graph);
    let e1 = bits[1].trigger(graph);
    let e2 = bits[2].trigger(graph);
    let e3 = bits[3].trigger(graph);
    let e4 = bits[4].trigger(graph);
    let e5 = bits[5].trigger(graph);
    let e6 = bits[6].trigger(graph);
    let e7 = bits[7].trigger(graph);
    [e0, e1, e2, e3, e4, e5, e6, e7]
}

/// A player of `data` that starts from the first sample whenever `trigger` fires.
pub fn sample_player<S: SignalTrait>(graph: &mut Graph<S>, data: Vec<i64>, trigger: Sbool) -> (s:
    Sfix)
    ensures
        s.id() == old(graph)@.nodes.len(),
        final(graph)@ == old(graph)@.with_node(
            NodeView::SamplePlayer(
                sample_player::SignalView {
                    data: data@,
                    trigger: trigger.id(),
                    cursor: data@.len() as usize,
                },
            ),
        ),
{
    let props = sample_player::Props { data, trigger: trigger.index() };
    BufferedSignal::new(graph, Node::SamplePlayer(sample_player::Signal::new(props)))
}

} // verus!
