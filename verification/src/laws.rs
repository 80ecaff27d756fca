//! What the modules do where they stand in a graph: each law is about a
//! node of one kind, sampled in a tick for which it holds no sample.
use vstd::prelude::*;
use crate::fixed::{sat, ONE};
use crate::graph::GraphView;
use crate::node::{NodeView, Poll, SignalCtx, SignalTrait};
use crate::synth_modules::synth_sequencer::{next_step_spec, period_ticks_spec};
use crate::value::{Scalar, Value};

verus! {

/// The graph and the samples after the first `n` of `nodes` have been
/// sampled in turn, in one tick.
pub open spec fn sampled_in_turn<S: SignalTrait>(
    g: GraphView<S>,
    nodes: Seq<usize>,
    ctx: SignalCtx,
    n: nat,
) -> (GraphView<S>, Seq<Value>)
    decreases n,
{
    if n == 0 || n > nodes.len() {
        (g, Seq::empty())
    } else {
        let (before, got) = sampled_in_turn(g, nodes, ctx, (n - 1) as nat);
        let (after, v) = before.eval(nodes[n - 1] as int, ctx);
        (after, got.push(v))
    }
}

impl<S: SignalTrait> NodeView<S> {
    /// The node that gives an envelope its gate; zero for another kind.
    pub open spec fn envelope_gate(self) -> usize {
        match self {
            NodeView::AsrEnvelopeLin01(m) => m.props.gate,
            NodeView::AdsrEnvelopeLin01(m) => m.props.gate,
            NodeView::AdsrEnvelopeExp01(m) => m.props.gate,
            _ => 0,
        }
    }

    /// The node that gives an envelope its release time; zero for another kind.
    pub open spec fn envelope_release(self) -> usize {
        match self {
            NodeView::AsrEnvelopeLin01(m) => m.props.release_seconds,
            NodeView::AdsrEnvelopeLin01(m) => m.props.release_seconds,
            NodeView::AdsrEnvelopeExp01(m) => m.props.release_seconds,
            _ => 0,
        }
    }

    /// The level of an envelope; zero for another kind.
    pub open spec fn envelope_level(self) -> i64 {
        match self {
            NodeView::AsrEnvelopeLin01(m) => m.current_value,
            NodeView::AdsrEnvelopeLin01(m) => m.current_value,
            NodeView::AdsrEnvelopeExp01(m) => m.current_value,
            _ => 0,
        }
    }

    /// Whether the node is an envelope.
    pub open spec fn is_envelope(self) -> bool {
        self is AsrEnvelopeLin01 || self is AdsrEnvelopeLin01 || self is AdsrEnvelopeExp01
    }
}

impl<S: SignalTrait> GraphView<S> {
    /// One step of computing a node: where the node asks for the sample of
    /// a node before it and stays as it is, the rest of the computation
    /// goes on from the graph after that sample, with the sample handed
    /// over, and the node is still the same.
    pub proof fn lemma_run_step(self, id: int, ctx: SignalCtx, got: Seq<Value>, fuel: nat)
        requires
            0 <= id < self.nodes.len(),
            fuel > 0,
            self.nodes[id].signal.poll_spec(got, ctx).0 == self.nodes[id].signal,
            self.nodes[id].signal.poll_spec(got, ctx).1 is Sample,
            self.nodes[id].signal.poll_spec(got, ctx).1->Sample_0 < id,
        ensures
            ({
                let k = self.nodes[id].signal.poll_spec(got, ctx).1->Sample_0 as int;
                let (after, v) = self.eval(k, ctx);
                &&& self.run(id, ctx, got, fuel) == after.run(
                    id,
                    ctx,
                    got.push(v),
                    (fuel - 1) as nat,
                )
                &&& after.nodes.len() == self.nodes.len()
                &&& after.nodes[id] == self.nodes[id]
            }),
    {
        let k = self.nodes[id].signal.poll_spec(got, ctx).1->Sample_0 as int;
        assert(self.with_signal(id, self.nodes[id].signal).nodes =~= self.nodes);
        self.lemma_eval_frame(k, ctx);
        let (after, v) = self.eval(k, ctx);
        assert(after.same_node(self, id));
    }

    /// The last step of computing a node: where the node has all it needs,
    /// its sample is the result and its new state is put in its place.
    pub proof fn lemma_run_ready(self, id: int, ctx: SignalCtx, got: Seq<Value>, fuel: nat)
        requires
            0 <= id < self.nodes.len(),
            fuel > 0,
            self.nodes[id].signal.poll_spec(got, ctx).1 is Ready,
        ensures
            self.run(id, ctx, got, fuel) == (
                self.with_signal(id, self.nodes[id].signal.poll_spec(got, ctx).0),
                self.nodes[id].signal.poll_spec(got, ctx).1->Ready_0,
            ),
    {
    }

    /// A released envelope keeps falling: where the node of its gate samples
    /// to `false` and its level lies above zero and at most at one, its
    /// sample lies below that level, and not below zero. So a released
    /// envelope comes to zero and does not stall on the way.
    pub proof fn law_release_falls(self, id: int, ctx: SignalCtx)
        requires
            0 <= id < self.nodes.len(),
            self.nodes[id].signal.is_envelope(),
            self.nodes[id].signal.envelope_gate() < id,
            self.nodes[id].signal.envelope_release() < id,
            self.nodes[id].cached(ctx) is None,
            !self.eval(self.nodes[id].signal.envelope_gate() as int, ctx).1.bool_spec(),
            0 < self.nodes[id].signal.envelope_level() <= ONE,
        ensures
            0 <= self.eval(id, ctx).1.num_spec() < self.nodes[id].signal.envelope_level(),
            self.eval(id, ctx).0.nodes[id].signal.envelope_level() == self.eval(
                id,
                ctx,
            ).1.num_spec(),
    {
        let node = self.nodes[id].signal;
        let fuel = usize::MAX as nat;
        let none = Seq::<Value>::empty();
        self.lemma_run_step(id, ctx, none, fuel);
        let (g, a) = self.eval(node.envelope_gate() as int, ctx);
        let one = none.push(a);
        assert(one[0] == a);
        g.lemma_run_step(id, ctx, one, (fuel - 1) as nat);
        let (h, b) = g.eval(node.envelope_release() as int, ctx);
        let two = one.push(b);
        assert(two[0] == a && two[1] == b);
        h.lemma_run_ready(id, ctx, two, (fuel - 2) as nat);
        match node {
            NodeView::AsrEnvelopeLin01(m) => {
                m.law_bounded(two, ctx);
            },
            NodeView::AdsrEnvelopeLin01(m) => {
                m.law_bounded(two, ctx);
            },
            NodeView::AdsrEnvelopeExp01(m) => {
                m.law_bounded(two, ctx);
            },
            _ => {},
        }
    }

    /// The weights of a weighted sum, by the nodes that give them.
    pub open spec fn weights_spec(self, id: int) -> Seq<usize> {
        let entries = self.nodes[id].signal->WeightedSum_0.weighted_signals;
        Seq::new(entries.len(), |i: int| entries[i].weight)
    }

    proof fn lemma_weights_sampled(self, id: int, ctx: SignalCtx, k: nat)
        requires
            0 <= id < self.nodes.len(),
            self.nodes[id].signal is WeightedSum,
            self.weights_spec(id).len() < usize::MAX,
            forall|i: int|
                0 <= i < self.weights_spec(id).len() ==> (#[trigger] self.weights_spec(id)[i])
                    < id,
            k <= self.weights_spec(id).len(),
        ensures
            ({
                let (g, got) = sampled_in_turn(self, self.weights_spec(id), ctx, k);
                &&& self.run(id, ctx, Seq::empty(), usize::MAX as nat) == g.run(
                    id,
                    ctx,
                    got,
                    (usize::MAX - k) as nat,
                )
                &&& g.nodes.len() == self.nodes.len()
                &&& g.nodes[id] == self.nodes[id]
                &&& got.len() == k
            }),
        decreases k,
    {
        if k > 0 {
            self.lemma_weights_sampled(id, ctx, (k - 1) as nat);
            let weights = self.weights_spec(id);
            let (before, got) = sampled_in_turn(self, weights, ctx, (k - 1) as nat);
            assert(weights[k - 1] < id);
            before.lemma_run_step(id, ctx, got, (usize::MAX - (k - 1)) as nat);
        }
    }

    /// A weighted sum whose weights all sample to zero yields exactly zero,
    /// wherever it stands in a graph, without sampling the signals that the
    /// weights belong to.
    pub proof fn law_zero_weights(self, id: int, ctx: SignalCtx)
        requires
            0 <= id < self.nodes.len(),
            self.nodes[id].signal is WeightedSum,
            self.weights_spec(id).len() < usize::MAX,
            forall|i: int|
                0 <= i < self.weights_spec(id).len() ==> (#[trigger] self.weights_spec(id)[i])
                    < id,
            self.nodes[id].cached(ctx) is None,
            forall|i: int|
                0 <= i < self.weights_spec(id).len() ==> (#[trigger] sampled_in_turn(
                    self,
                    self.weights_spec(id),
                    ctx,
                    self.weights_spec(id).len(),
                ).1[i]).num_spec() == 0,
        ensures
            self.eval(id, ctx).1 == Value::Num(0),
            self.eval(id, ctx).0 == sampled_in_turn(
                self,
                self.weights_spec(id),
                ctx,
                self.weights_spec(id).len(),
            ).0.stored(id, ctx, Value::Num(0)),
    {
        let n = self.weights_spec(id).len();
        self.lemma_weights_sampled(id, ctx, n);
        let (g, got) = sampled_in_turn(self, self.weights_spec(id), ctx, n);
        let sum = self.nodes[id].signal->WeightedSum_0;
        sum.law_zero_weights(got, ctx);
        g.lemma_run_ready(id, ctx, got, (usize::MAX - n) as nat);
        assert(g.with_signal(id, g.nodes[id].signal).nodes =~= g.nodes);
    }

    /// A sequencer in a graph, in a tick with a pulse of its clock: it moves
    /// to the next step, wrapping at the end; it samples that step's period
    /// and then its frequency; it yields that frequency, and its gate is
    /// open if the period holds at least one tick.
    pub proof fn law_sequencer_steps(self, id: int, ctx: SignalCtx)
        requires
            0 <= id < self.nodes.len(),
            self.nodes[id].signal is SynthSequencer,
            0 < self.nodes[id].signal->SynthSequencer_0.sequence.len() <= usize::MAX,
            self.nodes[id].signal->SynthSequencer_0.clock < id,
            forall|i: int|
                0 <= i < self.nodes[id].signal->SynthSequencer_0.sequence.len() ==> {
                    &&& (#[trigger] self.nodes[id].signal->SynthSequencer_0.sequence[i]).frequency_hz
                        < id
                    &&& self.nodes[id].signal->SynthSequencer_0.sequence[i].period_seconds < id
                },
            self.nodes[id].cached(ctx) is None,
            self.eval(self.nodes[id].signal->SynthSequencer_0.clock as int, ctx).1.bool_spec(),
        ensures
            ({
                let sequencer = self.nodes[id].signal->SynthSequencer_0;
                let len = sequencer.sequence.len() as int;
                let index = next_step_spec(sequencer.step_index as int, len);
                let step = sequencer.sequence[index];
                let (g, pulse) = self.eval(sequencer.clock as int, ctx);
                let (h, period) = g.eval(step.period_seconds as int, ctx);
                let (k, frequency) = h.eval(step.frequency_hz as int, ctx);
                let remain = sat(
                    period_ticks_spec(period.num_spec() as int, ctx.sample_rate as int) - 1,
                );
                let after = self.eval(id, ctx).0.nodes[id].signal;
                &&& 0 <= index < len
                &&& self.eval(id, ctx).1 == Value::Pair(
                    Scalar::Num(frequency.num_spec()),
                    Scalar::Bool(remain >= 0),
                )
                &&& after is SynthSequencer
                &&& after->SynthSequencer_0.step_index == index
                &&& after->SynthSequencer_0.gate_remain_ticks == remain
                &&& after->SynthSequencer_0.sequence == sequencer.sequence
            }),
    {
        let sequencer = self.nodes[id].signal->SynthSequencer_0;
        let len = sequencer.sequence.len() as int;
        let index = next_step_spec(sequencer.step_index as int, len);
        vstd::arithmetic::div_mod::lemma_mod_bound(sequencer.step_index as int, len);
        vstd::arithmetic::div_mod::lemma_mod_bound(sequencer.step_index as int % len + 1, len);
        let step = sequencer.sequence[index];
        let fuel = usize::MAX as nat;
        let none = Seq::<Value>::empty();
        self.lemma_run_step(id, ctx, none, fuel);
        let (g, pulse) = self.eval(sequencer.clock as int, ctx);
        let one = none.push(pulse);
        assert(one[0] == pulse);
        g.lemma_run_step(id, ctx, one, (fuel - 1) as nat);
        let (h, period) = g.eval(step.period_seconds as int, ctx);
        let two = one.push(period);
        assert(two[0] == pulse && two[1] == period);
        h.lemma_run_step(id, ctx, two, (fuel - 2) as nat);
        let (k, frequency) = h.eval(step.frequency_hz as int, ctx);
        let three = two.push(frequency);
        assert(three[0] == pulse && three[1] == period && three[2] == frequency);
        k.lemma_run_ready(id, ctx, three, (fuel - 3) as nat);
    }

    /// A sequencer in a graph, in a tick without a pulse of its clock: it
    /// stays on its step, samples that step's frequency and yields it, and
    /// counts one tick off its gate, which is open while ticks remain.
    pub proof fn law_sequencer_holds(self, id: int, ctx: SignalCtx)
        requires
            0 <= id < self.nodes.len(),
            self.nodes[id].signal is SynthSequencer,
            0 < self.nodes[id].signal->SynthSequencer_0.sequence.len() <= usize::MAX,
            self.nodes[id].signal->SynthSequencer_0.clock < id,
            forall|i: int|
                0 <= i < self.nodes[id].signal->SynthSequencer_0.sequence.len() ==> {
                    &&& (#[trigger] self.nodes[id].signal->SynthSequencer_0.sequence[i]).frequency_hz
                        < id
                    &&& self.nodes[id].signal->SynthSequencer_0.sequence[i].period_seconds < id
                },
            self.nodes[id].cached(ctx) is None,
            !self.eval(self.nodes[id].signal->SynthSequencer_0.clock as int, ctx).1.bool_spec(),
        ensures
            ({
                let sequencer = self.nodes[id].signal->SynthSequencer_0;
                let len = sequencer.sequence.len() as int;
                let index = sequencer.step_index as int % len;
                let step = sequencer.sequence[index];
                let (g, pulse) = self.eval(sequencer.clock as int, ctx);
                let (h, frequency) = g.eval(step.frequency_hz as int, ctx);
                let remain = sat(sequencer.gate_remain_ticks - 1);
                let after = self.eval(id, ctx).0.nodes[id].signal;
                &&& 0 <= index < len
                &&& self.eval(id, ctx).1 == Value::Pair(
                    Scalar::Num(frequency.num_spec()),
                    Scalar::Bool(remain >= 0),
                )
                &&& after is SynthSequencer
                &&& after->SynthSequencer_0.step_index == index
                &&& after->SynthSequencer_0.gate_remain_ticks == remain
                &&& after->SynthSequencer_0.sequence == sequencer.sequence
            }),
    {
        let sequencer = self.nodes[id].signal->SynthSequencer_0;
        let len = sequencer.sequence.len() as int;
        let index = sequencer.step_index as int % len;
        vstd::arithmetic::div_mod::lemma_mod_bound(sequencer.step_index as int, len);
        let step = sequencer.sequence[index];
        let fuel = usize::MAX as nat;
        let none = Seq::<Value>::empty();
        self.lemma_run_step(id, ctx, none, fuel);
        let (g, pulse) = self.eval(sequencer.clock as int, ctx);
        let one = none.push(pulse);
        assert(one[0] == pulse);
        g.lemma_run_step(id, ctx, one, (fuel - 1) as nat);
        let (h, frequency) = g.eval(step.frequency_hz as int, ctx);
        let two = one.push(frequency);
        assert(two[0] == pulse && two[1] == frequency);
        h.lemma_run_ready(id, ctx, two, (fuel - 2) as nat);
    }
}

} // verus!
