//! The arena that owns the nodes of a signal graph, and the evaluator that
//! samples a node at most once per tick however many consumers share it.
use vstd::prelude::*;
use crate::node::{Node, NodeView, Poll, SignalCtx, SignalTrait};
use crate::value::Value;

verus! {

/// One node together with its memo: the last sample and the first tick for
/// which that sample is stale. That tick is held in a wider integer than a
/// tick, so that the tick after the last one can be named too.
pub struct BufferedSignalUnshared<S> {
    pub signal: Node<S>,
    pub buffered_sample: Option<Value>,
    pub next_sample_index: u128,
}

/// A memoized node as contracts see it.
pub struct SlotView<S> {
    pub signal: NodeView<S>,
    pub buffered_sample: Option<Value>,
    pub next_sample_index: u128,
}

impl<S> View for BufferedSignalUnshared<S> {
    type V = SlotView<S>;

    open spec fn view(&self) -> SlotView<S> {
        SlotView {
            signal: self.signal@,
            buffered_sample: self.buffered_sample,
            next_sample_index: self.next_sample_index,
        }
    }
}

impl<S: SignalTrait> BufferedSignalUnshared<S> {
    /// A node that has not been sampled yet.
    pub fn new(signal: Node<S>) -> (slot: Self)
        ensures
            slot@ == SlotView::fresh(signal@),
    {
        Self { signal, buffered_sample: None, next_sample_index: 0 }
    }

    /// The sample kept for the tick of `ctx`, if there is one.
    pub fn cached(&self, ctx: &SignalCtx) -> (sample: Option<Value>)
        ensures
            sample == self@.cached(*ctx),
    {
        if (ctx.sample_index as u128) < self.next_sample_index {
            self.buffered_sample
        } else {
            None
        }
    }

    /// Keeps `sample` as the sample of the tick of `ctx`.
    pub fn record(&mut self, ctx: &SignalCtx, sample: Value)
        ensures
            final(self)@ == old(self)@.recorded(*ctx, sample),
    {
        if ctx.sample_index as u128 >= self.next_sample_index {
            self.next_sample_index = ctx.sample_index as u128 + 1;
        }
        self.buffered_sample = Some(sample);
    }
}

impl<S> SlotView<S> {
    /// A node that has not been sampled yet.
    pub open spec fn fresh(signal: NodeView<S>) -> Self {
        SlotView { signal, buffered_sample: None, next_sample_index: 0 }
    }

    /// The sample kept for the tick of `ctx`, if there is one.
    pub open spec fn cached(self, ctx: SignalCtx) -> Option<Value> {
        if (ctx.sample_index as u128) < self.next_sample_index {
            self.buffered_sample
        } else {
            None
        }
    }

    /// The node with `v` kept as the sample of the tick of `ctx`.
    pub open spec fn recorded(self, ctx: SignalCtx, v: Value) -> Self {
        SlotView {
            buffered_sample: Some(v),
            next_sample_index: next_index_spec(self.next_sample_index, ctx.sample_index),
            ..self
        }
    }
}

/// The first tick for which a sample taken at tick `sample_index` is stale,
/// given the one recorded before.
pub open spec fn next_index_spec(recorded: u128, sample_index: u64) -> u128 {
    if (sample_index as u128) < recorded {
        recorded
    } else {
        (sample_index + 1) as u128
    }
}

/// A signal graph: nodes in the order in which they were made, and the cells
/// through which values enter from outside.
///
/// A node reads only nodes made before it, so the graph has no cycles and
/// sampling ends. A node that asks for any other node yields the number
/// zero, and one that asks for a cell that is not there is handed zero.
pub struct Graph<S> {
    pub nodes: Vec<BufferedSignalUnshared<S>>,
    pub cells: Vec<Value>,
    /// The cells that hold noise, to be refilled before every tick.
    pub noise: Vec<usize>,
}

/// A graph as contracts see it.
pub struct GraphView<S> {
    pub nodes: Seq<SlotView<S>>,
    pub cells: Seq<Value>,
    pub noise: Seq<usize>,
}

impl<S> View for Graph<S> {
    type V = GraphView<S>;

    open spec fn view(&self) -> GraphView<S> {
        GraphView {
            nodes: Seq::new(self.nodes@.len(), |i: int| self.nodes@[i]@),
            cells: self.cells@,
            noise: self.noise@,
        }
    }
}

impl<S: SignalTrait> GraphView<S> {
    /// The content of cell `c`; the number zero where there is no such cell.
    pub open spec fn cell(self, c: usize) -> Value {
        if c < self.cells.len() {
            self.cells[c as int]
        } else {
            Value::Num(0)
        }
    }

    /// The graph with cell `c` set to `v`; unchanged where there is no such cell.
    pub open spec fn with_cell(self, c: usize, v: Value) -> Self {
        if c < self.cells.len() {
            GraphView { cells: self.cells.update(c as int, v), ..self }
        } else {
            self
        }
    }

    /// The graph with the node at `id` replaced, its memo kept.
    pub open spec fn with_signal(self, id: int, signal: NodeView<S>) -> Self
        recommends
            0 <= id < self.nodes.len(),
    {
        GraphView {
            nodes: self.nodes.update(id, SlotView { signal, ..self.nodes[id] }),
            ..self
        }
    }

    /// The graph with sample `v` recorded at node `id` for the tick of `ctx`.
    pub open spec fn stored(self, id: int, ctx: SignalCtx, v: Value) -> Self
        recommends
            0 <= id < self.nodes.len(),
    {
        GraphView { nodes: self.nodes.update(id, self.nodes[id].recorded(ctx, v)), ..self }
    }

    /// The graph with one more node, not yet sampled.
    pub open spec fn with_node(self, signal: NodeView<S>) -> Self {
        GraphView { nodes: self.nodes.push(SlotView::fresh(signal)), ..self }
    }

    /// The graph with one more cell.
    pub open spec fn with_new_cell(self, v: Value) -> Self {
        GraphView { cells: self.cells.push(v), ..self }
    }

    /// The graph with one more cell, which holds noise.
    pub open spec fn with_noise_cell(self) -> Self {
        GraphView {
            cells: self.cells.push(Value::Count(0)),
            noise: self.noise.push(self.cells.len() as usize),
            ..self
        }
    }

    /// The graph with the first `n` noise cells refilled from `draws`, the
    /// `i`-th cell with the `i`-th number.
    pub open spec fn with_noise(self, draws: Seq<u32>, n: nat) -> Self
        decreases n,
    {
        if n == 0 || n > self.noise.len() || n > draws.len() {
            self
        } else {
            self.with_noise(draws, (n - 1) as nat).with_cell(
                self.noise[n - 1],
                Value::Count(draws[n - 1]),
            )
        }
    }

    /// How many noise cells `draws` can refill.
    pub open spec fn refillable(self, draws: Seq<u32>) -> nat {
        if draws.len() <= self.noise.len() {
            draws.len()
        } else {
            self.noise.len()
        }
    }

    /// Computing node `id` afresh: the graph afterwards and the node's sample,
    /// where `got` holds the values handed to the node so far and `fuel`
    /// bounds how many more it may ask for.
    ///
    /// A node that asks for a node not made before it, or for more values
    /// than `fuel` allows, yields the number zero.
    pub open spec fn run(self, id: int, ctx: SignalCtx, got: Seq<Value>, fuel: nat) -> (Self, Value)
        decreases id, 0nat, fuel,
    {
        if !(0 <= id < self.nodes.len()) || fuel == 0 {
            (self, Value::Num(0))
        } else {
            let (signal, poll) = self.nodes[id].signal.poll_spec(got, ctx);
            let g = self.with_signal(id, signal);
            match poll {
                Poll::Ready(v) => (g, v),
                Poll::Sample(k) => if k < id {
                    let (h, v) = g.eval(k as int, ctx);
                    h.run(id, ctx, got.push(v), (fuel - 1) as nat)
                } else {
                    (g, Value::Num(0))
                },
                Poll::Read(c) => g.run(id, ctx, got.push(g.cell(c)), (fuel - 1) as nat),
                Poll::Take(c) => g.with_cell(c, Value::Bool(false)).run(
                    id,
                    ctx,
                    got.push(g.cell(c)),
                    (fuel - 1) as nat,
                ),
            }
        }
    }

    /// Sampling node `id` in the tick of `ctx`: the graph afterwards and the sample.
    ///
    /// Where the node holds a sample for this tick, that sample is the result
    /// and nothing changes. Otherwise the node is computed, which samples the
    /// nodes it depends on in turn, and the result is recorded.
    pub open spec fn eval(self, id: int, ctx: SignalCtx) -> (Self, Value)
        decreases id, 1nat, 0nat,
    {
        if !(0 <= id < self.nodes.len()) {
            (self, Value::Num(0))
        } else {
            match self.nodes[id].cached(ctx) {
                Some(v) => (self, v),
                None => {
                    let (g, v) = self.run(id, ctx, Seq::empty(), usize::MAX as nat);
                    (g.stored(id, ctx, v), v)
                },
            }
        }
    }
}

impl<S: SignalTrait> Graph<S> {
    /// A graph without nodes or cells.
    pub fn new() -> (graph: Self)
        ensures
            graph@.nodes.len() == 0,
            graph@.cells.len() == 0,
            graph@.noise.len() == 0,
    {
        Graph { nodes: Vec::new(), cells: Vec::new(), noise: Vec::new() }
    }

    /// The number of nodes.
    pub fn len(&self) -> (n: usize)
        ensures
            n == self@.nodes.len(),
    {
        self.nodes.len()
    }

    /// Adds a node and returns its index.
    pub fn add(&mut self, signal: Node<S>) -> (id: usize)
        ensures
            id == old(self)@.nodes.len(),
            final(self)@ == old(self)@.with_node(signal@),
    {
        let id = self.nodes.len();
        self.nodes.push(BufferedSignalUnshared::new(signal));
        assert(self@.nodes =~= old(self)@.with_node(signal@).nodes);
        id
    }

    /// Adds a cell that holds `v` and returns its index.
    pub fn add_cell(&mut self, v: Value) -> (c: usize)
        ensures
            c == old(self)@.cells.len(),
            final(self)@ == old(self)@.with_new_cell(v),
    {
        let c = self.cells.len();
        self.cells.push(v);
        assert(self@.nodes =~= old(self)@.nodes);
        c
    }

    /// Adds a cell that holds noise and returns its index.
    pub fn add_noise_cell(&mut self) -> (c: usize)
        ensures
            c == old(self)@.cells.len(),
            final(self)@ == old(self)@.with_noise_cell(),
    {
        let c = self.cells.len();
        self.cells.push(Value::Count(0));
        self.noise.push(c);
        assert(self@.nodes =~= old(self)@.nodes);
        c
    }

    /// The number of noise cells.
    pub fn noise_len(&self) -> (n: usize)
        ensures
            n == self@.noise.len(),
    {
        self.noise.len()
    }

    /// Refills the noise cells from `draws`, the `i`-th cell with the `i`-th
    /// number, as far as both reach.
    pub fn set_noise(&mut self, draws: &Vec<u32>)
        ensures
            final(self)@ == old(self)@.with_noise(draws@, old(self)@.refillable(draws@)),
            final(self)@.nodes == old(self)@.nodes,
            final(self)@.noise == old(self)@.noise,
            final(self)@.cells.len() == old(self)@.cells.len(),
    {
        let n = if draws.len() <= self.noise.len() { draws.len() } else { self.noise.len() };
        let mut i: usize = 0;
        while i < n
            invariant
                i <= n,
                n <= draws@.len(),
                n <= self@.noise.len(),
                self@.noise == old(self)@.noise,
                self@.nodes == old(self)@.nodes,
                self@.cells.len() == old(self)@.cells.len(),
                self@ == old(self)@.with_noise(draws@, i as nat),
            decreases n - i,
        {
            let c = self.noise[i];
            self.set_cell(c, Value::Count(draws[i]));
            i += 1;
        }
    }

    /// The content of cell `c`; the number zero where there is no such cell.
    pub fn cell(&self, c: usize) -> (v: Value)
        ensures
            v == self@.cell(c),
    {
        if c < self.cells.len() {
            self.cells[c]
        } else {
            Value::Num(0)
        }
    }

    /// Sets cell `c` to `v`; does nothing where there is no such cell.
    pub fn set_cell(&mut self, c: usize, v: Value)
        ensures
            final(self)@ == old(self)@.with_cell(c, v),
            final(self)@.nodes.len() == old(self)@.nodes.len(),
    {
        if c < self.cells.len() {
            self.cells[c] = v;
            assert(self@.nodes =~= old(self)@.nodes);
        }
    }

    /// Computes node `id` afresh, without regard to its memo.
    pub fn sample_signal(&mut self, id: usize, ctx: &SignalCtx) -> (out: Value)
        ensures
            (final(self)@, out) == old(self)@.run(id as int, *ctx, Seq::empty(), usize::MAX as nat),
            final(self)@.nodes.len() == old(self)@.nodes.len(),
        decreases id, 0nat,
    {
        if id >= self.nodes.len() {
            return Value::Num(0);
        }
        let mut got: Vec<Value> = Vec::new();
        while got.len() < usize::MAX
            invariant
                id < self@.nodes.len(),
                self@.nodes.len() == old(self)@.nodes.len(),
                self@.run(id as int, *ctx, got@, (usize::MAX - got.len()) as nat) == old(self)@.run(
                    id as int,
                    *ctx,
                    Seq::empty(),
                    usize::MAX as nat,
                ),
            decreases usize::MAX - got.len(),
        {
            let ghost before = self@;
            assert(self@.nodes.len() == self.nodes@.len());
            let poll = self.nodes[id].signal.poll(&got, ctx);
            assert(self@.nodes.len() == before.nodes.len());
            assert(self@ == before.with_signal(id as int, self@.nodes[id as int].signal)) by {
                assert(self@.nodes =~= before.with_signal(
                    id as int,
                    self@.nodes[id as int].signal,
                ).nodes);
            }
            match poll {
                Poll::Ready(v) => {
                    return v;
                },
                Poll::Sample(k) => {
                    if k < id {
                        let v = self.sample(k, ctx);
                        got.push(v);
                    } else {
                        return Value::Num(0);
                    }
                },
                Poll::Read(c) => {
                    let v = self.cell(c);
                    got.push(v);
                },
                Poll::Take(c) => {
                    let v = self.cell(c);
                    self.set_cell(c, Value::Bool(false));
                    got.push(v);
                },
            }
        }
        Value::Num(0)
    }

    /// Samples node `id` in the tick of `ctx`.
    pub fn sample(&mut self, id: usize, ctx: &SignalCtx) -> (out: Value)
        ensures
            (final(self)@, out) == old(self)@.eval(id as int, *ctx),
            final(self)@.nodes.len() == old(self)@.nodes.len(),
        decreases id, 1nat,
    {
        if id >= self.nodes.len() {
            return Value::Num(0);
        }
        if let Some(buffered_sample) = self.nodes[id].cached(ctx) {
            return buffered_sample;
        }
        let sample = self.sample_signal(id, ctx);
        let ghost before = self@;
        assert(self@.nodes.len() == self.nodes@.len());
        self.nodes[id].record(ctx, sample);
        assert(self@.nodes =~= before.stored(id as int, *ctx, sample).nodes);
        sample
    }
}

impl<S: SignalTrait> GraphView<S> {
    /// Whether `other` has the same nodes in number, the same cells in number
    /// and the same noise cells.
    pub open spec fn same_shape(self, other: Self) -> bool {
        &&& self.nodes.len() == other.nodes.len()
        &&& self.cells.len() == other.cells.len()
        &&& self.noise == other.noise
    }

    /// Whether node `j` is as in `other`: the same state and the same memo.
    pub open spec fn same_node(self, other: Self, j: int) -> bool {
        0 <= j < self.nodes.len() && j < other.nodes.len() && self.nodes[j] == other.nodes[j]
    }

    /// Computing a node neither adds nor removes anything, leaves every node
    /// after it as it was, and leaves every other node that holds a sample for
    /// this tick as it was.
    pub proof fn lemma_run_frame(self, id: int, ctx: SignalCtx, got: Seq<Value>, fuel: nat)
        ensures
            self.same_shape(self.run(id, ctx, got, fuel).0),
            forall|j: int|
                0 <= j && id < j < self.nodes.len() ==> #[trigger] self.run(
                    id,
                    ctx,
                    got,
                    fuel,
                ).0.same_node(self, j),
            forall|j: int|
                0 <= j < self.nodes.len() && j != id && self.nodes[j].cached(ctx) is Some
                    ==> #[trigger] self.run(id, ctx, got, fuel).0.same_node(self, j),
            0 <= id < self.nodes.len() ==> self.run(id, ctx, got, fuel).0.nodes[id].buffered_sample
                == self.nodes[id].buffered_sample && self.run(
                id,
                ctx,
                got,
                fuel,
            ).0.nodes[id].next_sample_index == self.nodes[id].next_sample_index,
        decreases id, 0nat, fuel,
    {
        if !(0 <= id < self.nodes.len()) || fuel == 0 {
        } else {
            let (signal, poll) = self.nodes[id].signal.poll_spec(got, ctx);
            let g = self.with_signal(id, signal);
            match poll {
                Poll::Ready(v) => {},
                Poll::Sample(k) => {
                    if k < id {
                        let (h, v) = g.eval(k as int, ctx);
                        g.lemma_eval_frame(k as int, ctx);
                        h.lemma_run_frame(id, ctx, got.push(v), (fuel - 1) as nat);
                        let r = h.run(id, ctx, got.push(v), (fuel - 1) as nat).0;
                        assert(h.same_node(g, id));
                        assert forall|j: int|
                            0 <= j < self.nodes.len() && j != id && self.nodes[j].cached(ctx)
                                is Some implies #[trigger] r.same_node(self, j) by {
                            assert(h.same_node(g, j));
                            assert(r.same_node(h, j));
                        }
                        assert forall|j: int| id < j < self.nodes.len() implies #[trigger] r.same_node(
                            self,
                            j,
                        ) by {
                            assert(h.same_node(g, j));
                            assert(r.same_node(h, j));
                        }
                    }
                },
                Poll::Read(c) => {
                    g.lemma_run_frame(id, ctx, got.push(g.cell(c)), (fuel - 1) as nat);
                    let r = g.run(id, ctx, got.push(g.cell(c)), (fuel - 1) as nat).0;
                    assert forall|j: int|
                        0 <= j < self.nodes.len() && j != id && self.nodes[j].cached(ctx)
                            is Some implies #[trigger] r.same_node(self, j) by {
                        assert(r.same_node(g, j));
                    }
                    assert forall|j: int| id < j < self.nodes.len() implies #[trigger] r.same_node(
                        self,
                        j,
                    ) by {
                        assert(r.same_node(g, j));
                    }
                },
                Poll::Take(c) => {
                    let g2 = g.with_cell(c, Value::Bool(false));
                    g2.lemma_run_frame(id, ctx, got.push(g.cell(c)), (fuel - 1) as nat);
                    let r = g2.run(id, ctx, got.push(g.cell(c)), (fuel - 1) as nat).0;
                    assert forall|j: int|
                        0 <= j < self.nodes.len() && j != id && self.nodes[j].cached(ctx)
                            is Some implies #[trigger] r.same_node(self, j) by {
                        assert(r.same_node(g2, j));
                    }
                    assert forall|j: int| id < j < self.nodes.len() implies #[trigger] r.same_node(
                        self,
                        j,
                    ) by {
                        assert(r.same_node(g2, j));
                    }
                },
            }
        }
    }

    /// Sampling a node neither adds nor removes anything, leaves every node
    /// after it as it was, and leaves every node that holds a sample for this
    /// tick as it was.
    pub proof fn lemma_eval_frame(self, id: int, ctx: SignalCtx)
        ensures
            self.same_shape(self.eval(id, ctx).0),
            forall|j: int|
                0 <= j && id < j < self.nodes.len() ==> #[trigger] self.eval(id, ctx).0.same_node(
                    self,
                    j,
                ),
            forall|j: int|
                0 <= j < self.nodes.len() && self.nodes[j].cached(ctx) is Some
                    ==> #[trigger] self.eval(id, ctx).0.same_node(self, j),
        decreases id, 1nat, 0nat,
    {
        if 0 <= id < self.nodes.len() && self.nodes[id].cached(ctx) is None {
            self.lemma_run_frame(id, ctx, Seq::empty(), usize::MAX as nat);
            let (g, v) = self.run(id, ctx, Seq::empty(), usize::MAX as nat);
            let r = g.stored(id, ctx, v);
            assert forall|j: int|
                0 <= j < self.nodes.len() && self.nodes[j].cached(ctx) is Some implies #[trigger] r.same_node(
                self,
                j,
            ) by {
                assert(g.same_node(self, j));
            }
            assert forall|j: int| id < j < self.nodes.len() implies #[trigger] r.same_node(
                self,
                j,
            ) by {
                assert(g.same_node(self, j));
            }
        }
    }

    /// A node computes at most once per tick: once node `id` has been sampled
    /// in a tick, sampling it again in that tick returns the same sample and
    /// changes nothing, whatever the sample rate named in the second call.
    pub proof fn law_memoization(self, id: int, ctx: SignalCtx, again: SignalCtx)
        requires
            0 <= id < self.nodes.len(),
            again.sample_index == ctx.sample_index,
        ensures
            self.eval(id, ctx).0.eval(id, again) == self.eval(id, ctx),
    {
        self.lemma_eval_frame(id, ctx);
        if self.nodes[id].cached(ctx) is None {
            self.lemma_run_frame(id, ctx, Seq::empty(), usize::MAX as nat);
        }
    }

    /// A constant yields its value and nothing else changes.
    pub proof fn law_const(self, id: int, ctx: SignalCtx)
        requires
            0 <= id < self.nodes.len(),
            self.nodes[id].signal is Const,
            self.nodes[id].cached(ctx) is None,
        ensures
            self.eval(id, ctx).1 == self.nodes[id].signal->Const_0,
            self.eval(id, ctx).0 == self.stored(id, ctx, self.nodes[id].signal->Const_0),
    {
        assert(self.with_signal(id, self.nodes[id].signal).nodes =~= self.nodes);
    }

    /// A constant yields its value in every tick, in whatever order the
    /// ticks come and however often it is sampled: a memo that holds nothing
    /// or the value holds the value afterwards.
    pub proof fn law_const_always(self, id: int, ctx: SignalCtx)
        requires
            0 <= id < self.nodes.len(),
            self.nodes[id].signal is Const,
            self.nodes[id].buffered_sample is None || self.nodes[id].buffered_sample == Some(
                self.nodes[id].signal->Const_0,
            ),
        ensures
            self.eval(id, ctx).1 == self.nodes[id].signal->Const_0,
            self.eval(id, ctx).0.nodes.len() == self.nodes.len(),
            self.eval(id, ctx).0.nodes[id].signal == self.nodes[id].signal,
            self.eval(id, ctx).0.nodes[id].buffered_sample == Some(self.nodes[id].signal->Const_0),
    {
        if self.nodes[id].cached(ctx) is None {
            self.law_const(id, ctx);
        }
    }

    /// A variable yields what its cell holds when it is sampled, and leaves
    /// the cell alone.
    pub proof fn law_var(self, id: int, ctx: SignalCtx)
        requires
            0 <= id < self.nodes.len(),
            self.nodes[id].signal is Var,
            self.nodes[id].cached(ctx) is None,
        ensures
            self.eval(id, ctx).1 == self.cell(self.nodes[id].signal->Var_cell),
            self.eval(id, ctx).0 == self.stored(
                id,
                ctx,
                self.cell(self.nodes[id].signal->Var_cell),
            ),
    {
        let c = self.nodes[id].signal->Var_cell;
        let fuel = usize::MAX as nat;
        assert(self.with_signal(id, self.nodes[id].signal).nodes =~= self.nodes);
        assert(self.run(id, ctx, Seq::empty(), fuel) == self.run(
            id,
            ctx,
            Seq::<Value>::empty().push(self.cell(c)),
            (fuel - 1) as nat,
        ));
        assert(Seq::<Value>::empty().push(self.cell(c))[0] == self.cell(c));
    }

    /// An event is seen once: the signal of an event cell yields whether
    /// the cell was set, and leaves it clear.
    pub proof fn law_trigger_var(self, id: int, ctx: SignalCtx)
        requires
            0 <= id < self.nodes.len(),
            self.nodes[id].signal is TriggerVar,
            self.nodes[id].cached(ctx) is None,
        ensures
            ({
                let c = self.nodes[id].signal->TriggerVar_cell;
                let seen = Value::Bool(self.cell(c).bool_spec());
                &&& self.eval(id, ctx).1 == seen
                &&& self.eval(id, ctx).0 == self.with_cell(c, Value::Bool(false)).stored(
                    id,
                    ctx,
                    seen,
                )
                &&& c < self.cells.len() ==> self.eval(id, ctx).0.cell(c) == Value::Bool(false)
            }),
    {
        let c = self.nodes[id].signal->TriggerVar_cell;
        let fuel = usize::MAX as nat;
        let cleared = self.with_cell(c, Value::Bool(false));
        assert(self.with_signal(id, self.nodes[id].signal).nodes =~= self.nodes);
        assert(cleared.with_signal(id, cleared.nodes[id].signal).nodes =~= cleared.nodes);
        assert(self.run(id, ctx, Seq::empty(), fuel) == cleared.run(
            id,
            ctx,
            Seq::<Value>::empty().push(self.cell(c)),
            (fuel - 1) as nat,
        ));
        assert(Seq::<Value>::empty().push(self.cell(c))[0] == self.cell(c));
    }

    /// A mapped signal samples its input once and yields the function of
    /// that sample, so it computes when and only when its input's sample is
    /// needed afresh.
    pub proof fn law_map(self, id: int, ctx: SignalCtx)
        requires
            0 <= id < self.nodes.len(),
            self.nodes[id].signal is Apply,
            self.nodes[id].signal->Apply_signal < id,
            self.nodes[id].cached(ctx) is None,
        ensures
            ({
                let input = self.nodes[id].signal->Apply_signal as int;
                let f = self.nodes[id].signal->Apply_f;
                let out = f.apply_spec(self.eval(input, ctx).1, ctx.sample_rate);
                &&& self.eval(id, ctx).1 == out
                &&& self.eval(id, ctx).0 == self.eval(input, ctx).0.stored(id, ctx, out)
            }),
    {
        let k = self.nodes[id].signal->Apply_signal as int;
        let fuel = usize::MAX as nat;
        assert(self.with_signal(id, self.nodes[id].signal).nodes =~= self.nodes);
        let (h, v) = self.eval(k, ctx);
        self.lemma_eval_frame(k, ctx);
        assert(h.same_node(self, id));
        assert(h.with_signal(id, h.nodes[id].signal).nodes =~= h.nodes);
        assert(self.run(id, ctx, Seq::empty(), fuel) == h.run(
            id,
            ctx,
            Seq::<Value>::empty().push(v),
            (fuel - 1) as nat,
        ));
        assert(Seq::<Value>::empty().push(v)[0] == v);
    }

    /// A pair of signals samples the left and then the right in the same
    /// tick and yields the two samples side by side; where both are one
    /// node, that node is computed once and the two halves are equal.
    pub proof fn law_both(self, id: int, ctx: SignalCtx)
        requires
            0 <= id < self.nodes.len(),
            self.nodes[id].signal is Both,
            self.nodes[id].signal->Both_left < id,
            self.nodes[id].signal->Both_right < id,
            self.nodes[id].cached(ctx) is None,
        ensures
            ({
                let left = self.nodes[id].signal->Both_left as int;
                let right = self.nodes[id].signal->Both_right as int;
                let (g, a) = self.eval(left, ctx);
                let (h, b) = g.eval(right, ctx);
                let out = Value::Pair(a.scalar_spec(), b.scalar_spec());
                &&& self.eval(id, ctx).1 == out
                &&& self.eval(id, ctx).0 == h.stored(id, ctx, out)
                &&& left == right ==> a == b && h == g
            }),
    {
        let left = self.nodes[id].signal->Both_left as int;
        let right = self.nodes[id].signal->Both_right as int;
        let fuel = usize::MAX as nat;
        assert(self.with_signal(id, self.nodes[id].signal).nodes =~= self.nodes);
        let (g, a) = self.eval(left, ctx);
        self.lemma_eval_frame(left, ctx);
        assert(g.same_node(self, id));
        assert(g.with_signal(id, g.nodes[id].signal).nodes =~= g.nodes);
        let one = Seq::<Value>::empty().push(a);
        assert(self.run(id, ctx, Seq::empty(), fuel) == g.run(id, ctx, one, (fuel - 1) as nat));
        let (h, b) = g.eval(right, ctx);
        g.lemma_eval_frame(right, ctx);
        assert(h.same_node(g, id));
        assert(h.with_signal(id, h.nodes[id].signal).nodes =~= h.nodes);
        let two = one.push(b);
        assert(g.run(id, ctx, one, (fuel - 1) as nat) == h.run(id, ctx, two, (fuel - 2) as nat));
        assert(two[0] == a && two[1] == b);
        if left == right {
            self.law_memoization(left, ctx, ctx);
        }
    }

    /// An edge detector yields `true` in the tick in which its input turns
    /// from `false` to `true`, and remembers the input's sample.
    pub proof fn law_trigger(self, id: int, ctx: SignalCtx)
        requires
            0 <= id < self.nodes.len(),
            self.nodes[id].signal is Trigger,
            self.nodes[id].signal->Trigger_signal < id,
            self.nodes[id].cached(ctx) is None,
        ensures
            ({
                let input = self.nodes[id].signal->Trigger_signal;
                let before = self.nodes[id].signal->Trigger_prev_sample;
                let level = self.eval(input as int, ctx).1.bool_spec();
                &&& self.eval(id, ctx).1 == Value::Bool(level && !before)
                &&& self.eval(id, ctx).0.nodes[id].signal == (NodeView::<S>::Trigger {
                    signal: input,
                    prev_sample: level,
                })
            }),
    {
        let k = self.nodes[id].signal->Trigger_signal as int;
        let fuel = usize::MAX as nat;
        assert(self.with_signal(id, self.nodes[id].signal).nodes =~= self.nodes);
        let (h, v) = self.eval(k, ctx);
        self.lemma_eval_frame(k, ctx);
        assert(h.same_node(self, id));
        assert(h.with_signal(id, h.nodes[id].signal).nodes =~= h.nodes);
        assert(self.run(id, ctx, Seq::empty(), fuel) == h.run(
            id,
            ctx,
            Seq::<Value>::empty().push(v),
            (fuel - 1) as nat,
        ));
        assert(Seq::<Value>::empty().push(v)[0] == v);
    }

    /// Whether a poll that asks for more leaves `node` as it was.
    pub open spec fn steady(node: NodeView<S>) -> bool {
        forall|got: Seq<Value>, ctx: SignalCtx|
            !((#[trigger] node.poll_spec(got, ctx)).1 is Ready) ==> node.poll_spec(got, ctx).0
                == node
    }

    /// Whether every sample that `node` can yield, whatever it is handed, is
    /// a number in `[low, high]`.
    pub open spec fn bounded(node: NodeView<S>, low: int, high: int) -> bool {
        forall|got: Seq<Value>, ctx: SignalCtx|
            (#[trigger] node.poll_spec(got, ctx)).1 is Ready ==> low <= node.poll_spec(
                got,
                ctx,
            ).1->Ready_0.num_spec() <= high
    }

    /// A node whose every sample lies in a range around zero yields a number
    /// in that range wherever it stands in a graph.
    pub proof fn lemma_run_bounded(
        self,
        id: int,
        ctx: SignalCtx,
        got: Seq<Value>,
        fuel: nat,
        low: int,
        high: int,
    )
        requires
            0 <= id < self.nodes.len(),
            Self::steady(self.nodes[id].signal),
            Self::bounded(self.nodes[id].signal, low, high),
            low <= 0 <= high,
        ensures
            low <= self.run(id, ctx, got, fuel).1.num_spec() <= high,
        decreases fuel,
    {
        if fuel > 0 {
            let node = self.nodes[id].signal;
            let (signal, poll) = node.poll_spec(got, ctx);
            let g = self.with_signal(id, signal);
            match poll {
                Poll::Ready(v) => {},
                Poll::Sample(k) => {
                    if k < id {
                        let (h, v) = g.eval(k as int, ctx);
                        g.lemma_eval_frame(k as int, ctx);
                        assert(h.same_node(g, id));
                        h.lemma_run_bounded(id, ctx, got.push(v), (fuel - 1) as nat, low, high);
                    }
                },
                Poll::Read(c) => {
                    g.lemma_run_bounded(
                        id,
                        ctx,
                        got.push(g.cell(c)),
                        (fuel - 1) as nat,
                        low,
                        high,
                    );
                },
                Poll::Take(c) => {
                    g.with_cell(c, Value::Bool(false)).lemma_run_bounded(
                        id,
                        ctx,
                        got.push(g.cell(c)),
                        (fuel - 1) as nat,
                        low,
                        high,
                    );
                },
            }
        }
    }

    /// An envelope stays within `[0, 1]` wherever it stands in a graph and
    /// whatever drives it: sampled in a tick for which it holds no sample,
    /// a linear or exponential envelope yields a number in that range.
    pub proof fn law_envelope_bounded(self, id: int, ctx: SignalCtx)
        requires
            0 <= id < self.nodes.len(),
            self.nodes[id].signal is AsrEnvelopeLin01 || self.nodes[id].signal is AdsrEnvelopeLin01
                || self.nodes[id].signal is AdsrEnvelopeExp01,
            self.nodes[id].cached(ctx) is None,
        ensures
            0 <= self.eval(id, ctx).1.num_spec() <= crate::fixed::ONE,
    {
        let node = self.nodes[id].signal;
        let one = crate::fixed::ONE as int;
        assert forall|got: Seq<Value>, c: SignalCtx| (#[trigger] node.poll_spec(got, c)).1
            is Ready implies 0 <= node.poll_spec(got, c).1->Ready_0.num_spec() <= one by {
            match node {
                NodeView::AsrEnvelopeLin01(m) => {
                    m.law_bounded(got, c);
                },
                NodeView::AdsrEnvelopeLin01(m) => {
                    m.law_bounded(got, c);
                },
                NodeView::AdsrEnvelopeExp01(m) => {
                    m.law_bounded(got, c);
                },
                _ => {},
            }
        }
        assert(Self::bounded(node, 0, one));
        assert(Self::steady(node));
        self.lemma_run_bounded(id, ctx, Seq::empty(), usize::MAX as nat, 0, one);
    }

    /// An oscillator stays within `[-1, 1]` wherever it stands in a graph
    /// and whatever drives it, whatever its waveform.
    pub proof fn law_oscillator_bounded(self, id: int, ctx: SignalCtx)
        requires
            0 <= id < self.nodes.len(),
            self.nodes[id].signal is Oscillator,
            self.nodes[id].cached(ctx) is None,
        ensures
            -crate::fixed::ONE <= self.eval(id, ctx).1.num_spec() <= crate::fixed::ONE,
    {
        let node = self.nodes[id].signal;
        let one = crate::fixed::ONE as int;
        assert forall|got: Seq<Value>, c: SignalCtx| (#[trigger] node.poll_spec(got, c)).1
            is Ready implies -one <= node.poll_spec(got, c).1->Ready_0.num_spec() <= one by {
            node->Oscillator_0.law_bounded(got, c);
        }
        assert(Self::bounded(node, -one, one));
        assert(Self::steady(node));
        self.lemma_run_bounded(id, ctx, Seq::empty(), usize::MAX as nat, -one, one);
    }

    /// A filter without sections is the identity in the graph too: sampled
    /// in a tick for which it holds no sample, it yields the sample of its
    /// input, whatever that is.
    pub proof fn law_filter_identity_at_zero_order(self, id: int, ctx: SignalCtx)
        requires
            0 <= id < self.nodes.len(),
            self.nodes[id].signal is BiquadFilter,
            self.nodes[id].signal->BiquadFilter_0.buffer.len() == 0,
            self.nodes[id].signal->BiquadFilter_0.signal < id,
            self.nodes[id].cached(ctx) is None,
        ensures
            self.eval(id, ctx).1 == self.eval(
                self.nodes[id].signal->BiquadFilter_0.signal as int,
                ctx,
            ).1,
    {
        let filter = self.nodes[id].signal->BiquadFilter_0;
        let k = filter.signal as int;
        let fuel = usize::MAX as nat;
        assert(self.with_signal(id, self.nodes[id].signal).nodes =~= self.nodes);
        assert(self.with_signal(id, self.nodes[id].signal) == self);
        let (h, v) = self.eval(k, ctx);
        self.lemma_eval_frame(k, ctx);
        assert(h.same_node(self, id));
        assert(h.with_signal(id, h.nodes[id].signal).nodes =~= h.nodes);
        assert(self.run(id, ctx, Seq::empty(), fuel) == h.run(
            id,
            ctx,
            Seq::<Value>::empty().push(v),
            (fuel - 1) as nat,
        ));
        assert(h.nodes[id].signal.poll_spec(Seq::<Value>::empty().push(v), ctx).1 == Poll::Ready(v));
    }

    /// The memo of a node outlives the sampling of any other node in the same
    /// tick: once node `id` has been sampled, sampling node `other` leaves
    /// node `id` untouched, and node `id` still returns the same sample.
    pub proof fn law_shared_node_samples_once(self, id: int, other: int, ctx: SignalCtx)
        requires
            0 <= id < self.nodes.len(),
        ensures
            ({
                let (g, v) = self.eval(id, ctx);
                let (h, w) = g.eval(other, ctx);
                h.same_node(g, id) && h.eval(id, ctx) == (h, v)
            }),
    {
        self.law_memoization(id, ctx, ctx);
        let (g, v) = self.eval(id, ctx);
        self.lemma_eval_frame(id, ctx);
        if self.nodes[id].cached(ctx) is None {
            self.lemma_run_frame(id, ctx, Seq::empty(), usize::MAX as nat);
        }
        assert(g.nodes[id].cached(ctx) == Some(v));
        g.lemma_eval_frame(other, ctx);
        let (h, w) = g.eval(other, ctx);
        assert(h.same_node(g, id));
    }
}

} // verus!
