//! The kinds of node that a signal graph is made of, and the protocol by
//! which a node asks the graph for the values it depends on.
use vstd::prelude::*;
use crate::fixed::{fx_add, fx_clamp, fx_div, fx_mul, fx_sub, over_rate, clamp_spec, div_spec,
    mul_spec, over_rate_spec, sat, HALF, ONE};
use crate::synth_modules::{adsr_envelope_exp_01, adsr_envelope_lin_01, amplify,
    asr_envelope_lin_01, biquad_filter, clock, moving_average_filter, oscillator,
    sample_and_hold, sample_player, state_variable_filter_first_order, sum, synth_sequencer,
    trigger_sequencer_8, weighted_sum};
use crate::value::Value;

verus! {

/// The moment at which a graph is sampled.
#[derive(Debug, Clone, Copy)]
pub struct SignalCtx {
    /// The number of the tick; it never decreases from one call to the next.
    pub sample_index: u64,
    /// Ticks per second.
    pub sample_rate: u32,
}

/// The values that a signal of the caller's own is handed in one tick,
/// first to last.
pub enum Inputs {
    Nil,
    Cons(Value, Box<Inputs>),
}

impl Inputs {
    /// The inputs that hold the values of `s`, in order.
    pub open spec fn of(s: Seq<Value>) -> Inputs
        decreases s.len(),
    {
        if s.len() == 0 {
            Inputs::Nil
        } else {
            Inputs::Cons(s[0], Box::new(Inputs::of(s.drop_first())))
        }
    }

    /// The values held, in order.
    pub open spec fn seq(self) -> Seq<Value>
        decreases self,
    {
        match self {
            Inputs::Nil => Seq::empty(),
            Inputs::Cons(first, rest) => Seq::empty().push(first) + rest.seq(),
        }
    }

    /// Inputs made of values hold those values.
    pub proof fn law_seq_of(s: Seq<Value>)
        ensures
            Inputs::of(s).seq() == s,
        decreases s.len(),
    {
        if s.len() > 0 {
            Inputs::law_seq_of(s.drop_first());
            assert(Seq::empty().push(s[0]) + s.drop_first() =~= s);
        } else {
            assert(s =~= Seq::empty());
        }
    }

    /// Adds the values held to the end of `values`.
    pub fn append_to(&self, values: &mut Vec<Value>)
        ensures
            final(values)@ == old(values)@ + self.seq(),
        decreases self,
    {
        match self {
            Inputs::Nil => {
                assert(values@ =~= old(values)@ + self.seq());
            },
            Inputs::Cons(first, rest) => {
                values.push(*first);
                rest.append_to(values);
                assert(values@ =~= old(values)@ + self.seq());
            },
        }
    }

    /// The values held, in order.
    pub fn to_vec(&self) -> (values: Vec<Value>)
        ensures
            values@ == self.seq(),
    {
        let mut values: Vec<Value> = Vec::new();
        self.append_to(&mut values);
        assert(values@ =~= self.seq());
        values
    }
}

/// A source of samples with private state.
///
/// The graph samples the node's inputs in order and hands their values over.
/// What `sample` returns, and the state it leaves, depend on the state
/// before, those values and the context alone: `output` and `next` name
/// them. An implementation in code that is not verified can write the two
/// by way of `sample`: on a copy of the state, with `inputs.to_vec()`.
pub trait SignalTrait: Sized {
    /// The state after one tick.
    spec fn next(self, inputs: Inputs, ctx: SignalCtx) -> Self;

    /// The value yielded in one tick.
    spec fn output(self, inputs: Inputs, ctx: SignalCtx) -> Value;

    fn sample(&mut self, inputs: &Vec<Value>, ctx: &SignalCtx) -> (out: Value)
        ensures
            *final(self) == old(self).next(Inputs::of(inputs@), *ctx),
            out == old(self).output(Inputs::of(inputs@), *ctx),
    ;
}

/// A signal that is always the number zero: the extension of a graph that has none.
pub struct Silence;

impl SignalTrait for Silence {
    open spec fn next(self, inputs: Inputs, ctx: SignalCtx) -> Self {
        self
    }

    open spec fn output(self, inputs: Inputs, ctx: SignalCtx) -> Value {
        Value::Num(0)
    }

    fn sample(&mut self, inputs: &Vec<Value>, ctx: &SignalCtx) -> (out: Value) {
        Value::Num(0)
    }
}

/// What a node asks for next, given the values it has been handed in this tick.
#[derive(Debug, Clone, Copy, PartialEq, Eq, Structural)]
pub enum Poll {
    /// The sample of another node, by its index.
    Sample(usize),
    /// The content of a cell.
    Read(usize),
    /// The content of a cell, which is then cleared to `false`.
    Take(usize),
    /// Nothing more: the node's own sample.
    Ready(Value),
}

/// A pure function from a sample to a sample.
#[derive(Debug, Clone, Copy, PartialEq, Eq, Structural)]
pub enum MapFn {
    /// The sample itself.
    Identity,
    /// The negation of a truth value.
    Not,
    /// Whether the bit of this number is set in a byte.
    Bit(u8),
    /// The first component of a pair or triple.
    First,
    /// The second component of a pair or triple.
    Second,
    /// The third component of a triple.
    Third,
    /// The sum of the two numbers of a pair.
    Add,
    /// The product of the two numbers of a pair.
    Mul,
    /// The first number of a pair over the second; zero where that is zero.
    Div,
    /// The number brought into the range between the two bounds.
    Clamp(i64, i64),
    /// The number over the sample rate, rounded down; zero where that is
    /// zero. A frequency in hertz becomes a share of the sample rate.
    OverSampleRate,
    /// The number plus a constant.
    Offset(i64),
    /// The number times a constant.
    Scale(i64),
    /// One minus the number.
    Complement,
    /// The number brought into plus or minus half of the sample rate.
    ClampNyquist,
    /// A count of 2^-32 units read as a number in `[0, 1)`.
    UnitInterval,
}

/// Half of the sample rate, as a fixed-point number of hertz.
pub open spec fn nyquist_spec(sample_rate: u32) -> int {
    sample_rate as int * (HALF as int)
}

pub fn nyquist(sample_rate: u32) -> (r: i64)
    ensures
        r as int == nyquist_spec(sample_rate),
        r >= 0,
{
    assert(0 <= sample_rate as int * 2147483648 <= 0xffff_ffff * 2147483648) by (nonlinear_arith)
        requires 0 <= sample_rate as int <= 0xffff_ffff;
    (sample_rate as i64) * HALF
}

/// Whether bit `i` is set in `byte`; `false` where there is no such bit.
pub open spec fn bit_spec(byte: u8, i: u8) -> bool {
    i < 8 && (byte & (1u8 << i)) != 0
}

pub fn bit(byte: u8, i: u8) -> (b: bool)
    ensures
        b == bit_spec(byte, i),
{
    if i < 8 {
        (byte & (1u8 << i)) != 0
    } else {
        false
    }
}

impl MapFn {
    pub open spec fn apply_spec(self, v: Value, sample_rate: u32) -> Value {
        match self {
            MapFn::Identity => v,
            MapFn::Not => Value::Bool(!v.bool_spec()),
            MapFn::Bit(i) => Value::Bool(bit_spec(v.byte_spec(), i)),
            MapFn::First => v.first_spec(),
            MapFn::Second => v.second_spec(),
            MapFn::Third => v.third_spec(),
            MapFn::Add => Value::Num(
                sat(v.first_spec().num_spec() + v.second_spec().num_spec()) as i64,
            ),
            MapFn::Mul => Value::Num(
                mul_spec(v.first_spec().num_spec() as int, v.second_spec().num_spec() as int) as i64,
            ),
            MapFn::Div => Value::Num(
                div_spec(v.first_spec().num_spec() as int, v.second_spec().num_spec() as int) as i64,
            ),
            MapFn::Clamp(low, high) => Value::Num(
                clamp_spec(v.num_spec() as int, low as int, high as int) as i64,
            ),
            MapFn::OverSampleRate => Value::Num(
                over_rate_spec(v.num_spec() as int, sample_rate as int) as i64,
            ),
            MapFn::Offset(c) => Value::Num(sat(v.num_spec() + c) as i64),
            MapFn::Scale(c) => Value::Num(mul_spec(v.num_spec() as int, c as int) as i64),
            MapFn::Complement => Value::Num(sat(ONE - v.num_spec()) as i64),
            MapFn::ClampNyquist => Value::Num(
                clamp_spec(
                    v.num_spec() as int,
                    -nyquist_spec(sample_rate),
                    nyquist_spec(sample_rate),
                ) as i64,
            ),
            MapFn::UnitInterval => Value::Num(v.count_spec() as i64),
        }
    }

    pub fn apply(self, v: Value, sample_rate: u32) -> (r: Value)
        ensures
            r == self.apply_spec(v, sample_rate),
    {
        match self {
            MapFn::Identity => v,
            MapFn::Not => Value::Bool(!v.as_bool()),
            MapFn::Bit(i) => Value::Bool(bit(v.as_byte(), i)),
            MapFn::First => v.first(),
            MapFn::Second => v.second(),
            MapFn::Third => v.third(),
            MapFn::Add => Value::Num(fx_add(v.first().as_num(), v.second().as_num())),
            MapFn::Mul => Value::Num(fx_mul(v.first().as_num(), v.second().as_num())),
            MapFn::Div => Value::Num(fx_div(v.first().as_num(), v.second().as_num())),
            MapFn::Clamp(low, high) => Value::Num(fx_clamp(v.as_num(), low, high)),
            MapFn::OverSampleRate => Value::Num(over_rate(v.as_num(), sample_rate)),
            MapFn::Offset(c) => Value::Num(fx_add(v.as_num(), c)),
            MapFn::Scale(c) => Value::Num(fx_mul(v.as_num(), c)),
            MapFn::Complement => Value::Num(fx_sub(ONE, v.as_num())),
            MapFn::ClampNyquist => {
                let n = nyquist(sample_rate);
                Value::Num(fx_clamp(v.as_num(), -n, n))
            },
            MapFn::UnitInterval => Value::Num(v.as_count() as i64),
        }
    }
}

/// One node: what it is wired to, and the state it carries from tick to tick.
pub enum Node<S> {
    /// Always the same value.
    Const(Value),
    /// The current content of a cell.
    Var { cell: usize },
    /// The content of a cell, read once: reading clears it.
    TriggerVar { cell: usize },
    /// A pure function of another node's sample.
    Apply { signal: usize, f: MapFn },
    /// The samples of two nodes, as a pair.
    Both { left: usize, right: usize },
    /// `true` in the tick in which a level signal goes from `false` to `true`.
    Trigger { signal: usize, prev_sample: bool },
    /// The sample of `signal`, after `forced_signal` has been sampled too.
    Force { signal: usize, forced_signal: usize },
    /// The sample of `signal`, shown to an observer on its way; a quiet
    /// observer is told of the tick but not of the sample.
    Debug { signal: usize, observer: S, quiet: bool },
    /// A signal of the caller's own, fed with the samples of `inputs`.
    Custom { inputs: Vec<usize>, custom: S },
    /// An oscillator.
    Oscillator(oscillator::Signal<S>),
    /// The sum of a list of signals.
    Sum(sum::Props),
    /// The weighted mean of a list of signals.
    WeightedSum(weighted_sum::Props),
    /// A gain stage with a noise gate.
    Amplify(amplify::Props),
    /// A linear attack-release envelope.
    AsrEnvelopeLin01(asr_envelope_lin_01::Signal),
    /// A linear attack-decay-sustain-release envelope.
    AdsrEnvelopeLin01(adsr_envelope_lin_01::Signal),
    /// An exponential attack-decay-sustain-release envelope.
    AdsrEnvelopeExp01(adsr_envelope_exp_01::Signal),
    /// A moving-average low pass or high pass.
    MovingAverageFilter(moving_average_filter::Signal),
    /// A first-order state-variable filter.
    StateVariableFilter(state_variable_filter_first_order::Signal),
    /// A cascade of second-order filter sections.
    BiquadFilter(biquad_filter::Signal),
    /// A sample-and-hold.
    SampleAndHold(sample_and_hold::Signal),
    /// The level of a free-running clock.
    Clock(clock::Signal),
    /// A step sequencer of frequency and gate.
    SynthSequencer(synth_sequencer::Signal),
    /// A step sequencer of eight trigger channels.
    TriggerSequencer8(trigger_sequencer_8::Signal),
    /// A one-shot sample player.
    SamplePlayer(sample_player::Signal),
}

/// A node as contracts see it.
pub enum NodeView<S> {
    Const(Value),
    Var { cell: usize },
    TriggerVar { cell: usize },
    Apply { signal: usize, f: MapFn },
    Both { left: usize, right: usize },
    Trigger { signal: usize, prev_sample: bool },
    Force { signal: usize, forced_signal: usize },
    Debug { signal: usize, observer: S, quiet: bool },
    Custom { inputs: Seq<usize>, custom: S },
    Oscillator(oscillator::Signal<S>),
    Sum(sum::PropsView),
    WeightedSum(weighted_sum::PropsView),
    Amplify(amplify::Props),
    AsrEnvelopeLin01(asr_envelope_lin_01::Signal),
    AdsrEnvelopeLin01(adsr_envelope_lin_01::Signal),
    AdsrEnvelopeExp01(adsr_envelope_exp_01::Signal),
    MovingAverageFilter(moving_average_filter::SignalView),
    StateVariableFilter(state_variable_filter_first_order::Signal),
    BiquadFilter(biquad_filter::SignalView),
    SampleAndHold(sample_and_hold::Signal),
    Clock(clock::Signal),
    SynthSequencer(synth_sequencer::SignalView),
    TriggerSequencer8(trigger_sequencer_8::SignalView),
    SamplePlayer(sample_player::SignalView),
}

impl<S> View for Node<S> {
    type V = NodeView<S>;

    open spec fn view(&self) -> NodeView<S> {
        match *self {
            Node::Const(v) => NodeView::Const(v),
            Node::Var { cell } => NodeView::Var { cell },
            Node::TriggerVar { cell } => NodeView::TriggerVar { cell },
            Node::Apply { signal, f } => NodeView::Apply { signal, f },
            Node::Both { left, right } => NodeView::Both { left, right },
            Node::Trigger { signal, prev_sample } => NodeView::Trigger { signal, prev_sample },
            Node::Force { signal, forced_signal } => NodeView::Force { signal, forced_signal },
            Node::Debug { signal, observer, quiet } => NodeView::Debug { signal, observer, quiet },
            Node::Custom { inputs, custom } => NodeView::Custom { inputs: inputs@, custom },
            Node::Oscillator(m) => NodeView::Oscillator(m),
            Node::Sum(m) => NodeView::Sum(m@),
            Node::WeightedSum(m) => NodeView::WeightedSum(m@),
            Node::Amplify(m) => NodeView::Amplify(m),
            Node::AsrEnvelopeLin01(m) => NodeView::AsrEnvelopeLin01(m),
            Node::AdsrEnvelopeLin01(m) => NodeView::AdsrEnvelopeLin01(m),
            Node::AdsrEnvelopeExp01(m) => NodeView::AdsrEnvelopeExp01(m),
            Node::MovingAverageFilter(m) => NodeView::MovingAverageFilter(m@),
            Node::StateVariableFilter(m) => NodeView::StateVariableFilter(m),
            Node::BiquadFilter(m) => NodeView::BiquadFilter(m@),
            Node::SampleAndHold(m) => NodeView::SampleAndHold(m),
            Node::Clock(m) => NodeView::Clock(m),
            Node::SynthSequencer(m) => NodeView::SynthSequencer(m@),
            Node::TriggerSequencer8(m) => NodeView::TriggerSequencer8(m@),
            Node::SamplePlayer(m) => NodeView::SamplePlayer(m@),
        }
    }
}

impl<S: SignalTrait> NodeView<S> {
    /// The node after one poll, and what it asks for, where `got` holds the
    /// values handed to it so far in this tick.
    pub open spec fn poll_spec(self, got: Seq<Value>, ctx: SignalCtx) -> (Self, Poll) {
        match self {
            NodeView::Const(v) => (self, Poll::Ready(v)),
            NodeView::Var { cell } => if got.len() == 0 {
                (self, Poll::Read(cell))
            } else {
                (self, Poll::Ready(got[0]))
            },
            NodeView::TriggerVar { cell } => if got.len() == 0 {
                (self, Poll::Take(cell))
            } else {
                (self, Poll::Ready(Value::Bool(got[0].bool_spec())))
            },
            NodeView::Apply { signal, f } => if got.len() == 0 {
                (self, Poll::Sample(signal))
            } else {
                (self, Poll::Ready(f.apply_spec(got[0], ctx.sample_rate)))
            },
            NodeView::Both { left, right } => if got.len() == 0 {
                (self, Poll::Sample(left))
            } else if got.len() == 1 {
                (self, Poll::Sample(right))
            } else {
                (self, Poll::Ready(Value::Pair(got[0].scalar_spec(), got[1].scalar_spec())))
            },
            NodeView::Trigger { signal, prev_sample } => if got.len() == 0 {
                (self, Poll::Sample(signal))
            } else {
                (
                    NodeView::Trigger { signal, prev_sample: got[0].bool_spec() },
                    Poll::Ready(Value::Bool(got[0].bool_spec() && !prev_sample)),
                )
            },
            NodeView::Force { signal, forced_signal } => if got.len() == 0 {
                (self, Poll::Sample(forced_signal))
            } else if got.len() == 1 {
                (self, Poll::Sample(signal))
            } else {
                (self, Poll::Ready(got[1]))
            },
            NodeView::Debug { signal, observer, quiet } => if got.len() == 0 {
                (self, Poll::Sample(signal))
            } else {
                (
                    NodeView::Debug {
                        signal,
                        observer: observer.next(
                            Inputs::of(
                                if quiet {
                                    Seq::empty()
                                } else {
                                    got
                                },
                            ),
                            ctx,
                        ),
                        quiet,
                    },
                    Poll::Ready(got[0]),
                )
            },
            NodeView::Custom { inputs, custom } => if got.len() < inputs.len() {
                (self, Poll::Sample(inputs[got.len() as int]))
            } else {
                (
                    NodeView::Custom { inputs, custom: custom.next(Inputs::of(got), ctx) },
                    Poll::Ready(custom.output(Inputs::of(got), ctx)),
                )
            },
            NodeView::Oscillator(m) => (NodeView::Oscillator(m.poll_spec(got, ctx).0), m.poll_spec(got, ctx).1),
            NodeView::Sum(m) => (self, m.poll_spec(got, ctx)),
            NodeView::WeightedSum(m) => (self, m.poll_spec(got, ctx)),
            NodeView::Amplify(m) => (self, m.poll_spec(got, ctx)),
            NodeView::AsrEnvelopeLin01(m) => (NodeView::AsrEnvelopeLin01(m.poll_spec(got, ctx).0), m.poll_spec(got, ctx).1),
            NodeView::AdsrEnvelopeLin01(m) => (NodeView::AdsrEnvelopeLin01(m.poll_spec(got, ctx).0), m.poll_spec(got, ctx).1),
            NodeView::AdsrEnvelopeExp01(m) => (NodeView::AdsrEnvelopeExp01(m.poll_spec(got, ctx).0), m.poll_spec(got, ctx).1),
            NodeView::MovingAverageFilter(m) => (NodeView::MovingAverageFilter(m.poll_spec(got, ctx).0), m.poll_spec(got, ctx).1),
            NodeView::StateVariableFilter(m) => (NodeView::StateVariableFilter(m.poll_spec(got, ctx).0), m.poll_spec(got, ctx).1),
            NodeView::BiquadFilter(m) => (NodeView::BiquadFilter(m.poll_spec(got, ctx).0), m.poll_spec(got, ctx).1),
            NodeView::SampleAndHold(m) => (NodeView::SampleAndHold(m.poll_spec(got, ctx).0), m.poll_spec(got, ctx).1),
            NodeView::Clock(m) => (NodeView::Clock(m.poll_spec(got, ctx).0), m.poll_spec(got, ctx).1),
            NodeView::SynthSequencer(m) => (NodeView::SynthSequencer(m.poll_spec(got, ctx).0), m.poll_spec(got, ctx).1),
            NodeView::TriggerSequencer8(m) => (NodeView::TriggerSequencer8(m.poll_spec(got, ctx).0), m.poll_spec(got, ctx).1),
            NodeView::SamplePlayer(m) => (NodeView::SamplePlayer(m.poll_spec(got, ctx).0), m.poll_spec(got, ctx).1),
        }
    }
}

impl<S: SignalTrait> Node<S> {
    /// One step of sampling this node.
    pub fn poll(&mut self, got: &Vec<Value>, ctx: &SignalCtx) -> (p: Poll)
        ensures
            (final(self)@, p) == old(self)@.poll_spec(got@, *ctx),
    {
        match self {
            Node::Const(v) => Poll::Ready(*v),
            Node::Var { cell } => if got.len() == 0 {
                Poll::Read(*cell)
            } else {
                Poll::Ready(got[0])
            },
            Node::TriggerVar { cell } => if got.len() == 0 {
                Poll::Take(*cell)
            } else {
                Poll::Ready(Value::Bool(got[0].as_bool()))
            },
            Node::Apply { signal, f } => if got.len() == 0 {
                Poll::Sample(*signal)
            } else {
                Poll::Ready(f.apply(got[0], ctx.sample_rate))
            },
            Node::Both { left, right } => if got.len() == 0 {
                Poll::Sample(*left)
            } else if got.len() == 1 {
                Poll::Sample(*right)
            } else {
                Poll::Ready(Value::Pair(got[0].as_scalar(), got[1].as_scalar()))
            },
            Node::Trigger { signal, prev_sample } => if got.len() == 0 {
                Poll::Sample(*signal)
            } else {
                let sample = got[0].as_bool();
                let trigger_sample = sample && !*prev_sample;
                *prev_sample = sample;
                Poll::Ready(Value::Bool(trigger_sample))
            },
            Node::Force { signal, forced_signal } => if got.len() == 0 {
                Poll::Sample(*forced_signal)
            } else if got.len() == 1 {
                Poll::Sample(*signal)
            } else {
                Poll::Ready(got[1])
            },
            Node::Debug { signal, observer, quiet } => if got.len() == 0 {
                Poll::Sample(*signal)
            } else {
                if *quiet {
                    let nothing: Vec<Value> = Vec::new();
                    assert(nothing@ =~= Seq::empty());
                    let _ = observer.sample(&nothing, ctx);
                } else {
                    let _ = observer.sample(got, ctx);
                }
                Poll::Ready(got[0])
            },
            Node::Custom { inputs, custom } => if got.len() < inputs.len() {
                Poll::Sample(inputs[got.len()])
            } else {
                Poll::Ready(custom.sample(got, ctx))
            },
            Node::Oscillator(m) => m.poll(got, ctx),
            Node::Sum(m) => m.poll(got, ctx),
            Node::WeightedSum(m) => m.poll(got, ctx),
            Node::Amplify(m) => m.poll(got, ctx),
            Node::AsrEnvelopeLin01(m) => m.poll(got, ctx),
            Node::AdsrEnvelopeLin01(m) => m.poll(got, ctx),
            Node::AdsrEnvelopeExp01(m) => m.poll(got, ctx),
            Node::MovingAverageFilter(m) => m.poll(got, ctx),
            Node::StateVariableFilter(m) => m.poll(got, ctx),
            Node::BiquadFilter(m) => m.poll(got, ctx),
            Node::SampleAndHold(m) => m.poll(got, ctx),
            Node::Clock(m) => m.poll(got, ctx),
            Node::SynthSequencer(m) => m.poll(got, ctx),
            Node::TriggerSequencer8(m) => m.poll(got, ctx),
            Node::SamplePlayer(m) => m.poll(got, ctx),
        }
    }
}

} // verus!
