//! Typed handles on the nodes and cells of a signal graph.
//!
//! A handle is an index with a type attached. Any number of handles may name
//! one node; the node's state and its memo live in the graph, so all of them
//! see the same sample in one tick.
use vstd::prelude::*;
use std::marker::PhantomData;
use crate::graph::{Graph, GraphView};
use crate::node::{MapFn, Node, NodeView, SignalCtx, SignalTrait};
use crate::value::{Sample, ScalarSample, Value};

verus! {

/// A handle on a node whose samples are of type `T`.
pub struct BufferedSignal<T> {
    index: usize,
    marker: PhantomData<T>,
}

pub type Sfix = BufferedSignal<i64>;

pub type Sbool = BufferedSignal<bool>;

pub type Su8 = BufferedSignal<u8>;

pub type Su32 = BufferedSignal<u32>;

/// The graph after `n` nodes have been added, of which the `i`-th tests bit
/// `i` of the samples of node `source`.
pub open spec fn expanded<S: SignalTrait>(g: GraphView<S>, source: usize, n: nat) -> GraphView<S>
    decreases n,
{
    if n == 0 {
        g
    } else {
        expanded(g, source, (n - 1) as nat).with_node(
            NodeView::Apply { signal: source, f: MapFn::Bit((n - 1) as u8) },
        )
    }
}

/// The graph after `n` edge detectors have been added, of which the `i`-th
/// watches node `first + i`.
pub open spec fn edged<S: SignalTrait>(g: GraphView<S>, first: usize, n: nat) -> GraphView<S>
    decreases n,
{
    if n == 0 {
        g
    } else {
        edged(g, first, (n - 1) as nat).with_node(
            NodeView::Trigger { signal: (first + n - 1) as usize, prev_sample: false },
        )
    }
}

impl<T: Sample> BufferedSignal<T> {
    /// The index of the node that this handle names.
    pub closed spec fn id(&self) -> usize {
        self.index
    }

    /// A handle on the node at `index`.
    pub fn at(index: usize) -> (s: Self)
        ensures
            s.id() == index,
    {
        BufferedSignal { index, marker: PhantomData }
    }

    /// The index of the node that this handle names.
    pub fn index(&self) -> (i: usize)
        ensures
            i == self.id(),
    {
        self.index
    }

    /// Adds `signal` to the graph as a new node.
    pub fn new<S: SignalTrait>(graph: &mut Graph<S>, signal: Node<S>) -> (s: Self)
        ensures
            s.id() == old(graph)@.nodes.len(),
            final(graph)@ == old(graph)@.with_node(signal@),
    {
        Self::at(graph.add(signal))
    }

    /// The node's sample in the tick of `ctx`.
    pub fn sample<S: SignalTrait>(&self, graph: &mut Graph<S>, ctx: &SignalCtx) -> (out: T)
        ensures
            final(graph)@ == old(graph)@.eval(self.id() as int, *ctx).0,
            out == T::of_value(old(graph)@.eval(self.id() as int, *ctx).1),
    {
        T::from_value(graph.sample(self.index, ctx))
    }

    /// Another handle on the same node.
    pub fn clone_ref(&self) -> (s: Self)
        ensures
            s.id() == self.id(),
    {
        Self::at(self.index)
    }

    /// A node whose sample is `f` of this node's sample.
    pub fn map<U: Sample, S: SignalTrait>(&self, graph: &mut Graph<S>, f: MapFn) -> (s:
        BufferedSignal<U>)
        ensures
            s.id() == old(graph)@.nodes.len(),
            final(graph)@ == old(graph)@.with_node(NodeView::Apply { signal: self.id(), f }),
    {
        BufferedSignal::new(graph, Node::Apply { signal: self.index, f })
    }

    /// A node whose sample is what `f` makes of this node's sample and of
    /// the context, the sample rate among it.
    pub fn map_sample_rate<U: Sample, S: SignalTrait>(&self, graph: &mut Graph<S>, f: S) -> (s:
        BufferedSignal<U>)
        ensures
            s.id() == old(graph)@.nodes.len(),
            final(graph)@ == old(graph)@.with_node(
                NodeView::Custom { inputs: seq![self.id()], custom: f },
            ),
    {
        let mut inputs: Vec<usize> = Vec::new();
        inputs.push(self.index);
        assert(inputs@ =~= seq![self.id()]);
        BufferedSignal::new(graph, Node::Custom { inputs, custom: f })
    }

    /// A node that samples this node and `other` in the same tick and yields the pair.
    pub fn both<U: ScalarSample, S: SignalTrait>(
        &self,
        graph: &mut Graph<S>,
        other: &BufferedSignal<U>,
    ) -> (s: BufferedSignal<(T, U)>) where T: ScalarSample
        ensures
            s.id() == old(graph)@.nodes.len(),
            final(graph)@ == old(graph)@.with_node(
                NodeView::Both { left: self.id(), right: other.id() },
            ),
    {
        BufferedSignal::new(graph, Node::Both { left: self.index, right: other.index })
    }

    /// A node that yields this node's sample once `forced_signal` has been
    /// sampled too, so that its state keeps advancing.
    pub fn force<U: Sample, S: SignalTrait>(
        &self,
        graph: &mut Graph<S>,
        forced_signal: BufferedSignal<U>,
    ) -> (s: Self)
        ensures
            s.id() == old(graph)@.nodes.len(),
            final(graph)@ == old(graph)@.with_node(
                NodeView::Force { signal: self.id(), forced_signal: forced_signal.id() },
            ),
    {
        BufferedSignal::new(
            graph,
            Node::Force { signal: self.index, forced_signal: forced_signal.index },
        )
    }

    /// A node that yields this node's sample and shows it to `observer`.
    pub fn debug<S: SignalTrait>(&self, graph: &mut Graph<S>, observer: S) -> (s: Self)
        ensures
            s.id() == old(graph)@.nodes.len(),
            final(graph)@ == old(graph)@.with_node(
                NodeView::Debug { signal: self.id(), observer, quiet: false },
            ),
    {
        BufferedSignal::new(graph, Node::Debug { signal: self.index, observer, quiet: false })
    }

    /// A node that yields this node's sample and tells `observer` of every
    /// tick in which it is computed, without showing it the sample.
    pub fn debug_<S: SignalTrait>(&self, graph: &mut Graph<S>, observer: S) -> (s: Self)
        ensures
            s.id() == old(graph)@.nodes.len(),
            final(graph)@ == old(graph)@.with_node(
                NodeView::Debug { signal: self.id(), observer, quiet: true },
            ),
    {
        BufferedSignal::new(graph, Node::Debug { signal: self.index, observer, quiet: true })
    }
}

impl BufferedSignal<bool> {
    /// A node that is `true` only in the tick in which this one turns from
    /// `false` to `true`.
    pub fn trigger<S: SignalTrait>(&self, graph: &mut Graph<S>) -> (s: Self)
        ensures
            s.id() == old(graph)@.nodes.len(),
            final(graph)@ == old(graph)@.with_node(
                NodeView::Trigger { signal: self.id(), prev_sample: false },
            ),
    {
        BufferedSignal::new(graph, Node::Trigger { signal: self.index, prev_sample: false })
    }
}

impl BufferedSignal<u8> {
    /// Eight nodes, one for each bit of this node's sample.
    pub fn expand<S: SignalTrait>(&self, graph: &mut Graph<S>) -> (channels: [Sbool; 8])
        ensures
            forall|i: int| 0 <= i < 8 ==> (#[trigger] channels[i]).id() == old(graph)@.nodes.len() + i,
            final(graph)@ == expanded(old(graph)@, self.id(), 8),
    {
        reveal_with_fuel(expanded, 9);
        let b0: Sbool = self.map(graph, MapFn::Bit(0));
        let b1: Sbool = self.map(graph, MapFn::Bit(1));
        let b2: Sbool = self.map(graph, MapFn::Bit(2));
        let b3: Sbool = self.map(graph, MapFn::Bit(3));
        let b4: Sbool = self.map(graph, MapFn::Bit(4));
        let b5: Sbool = self.map(graph, MapFn::Bit(5));
        let b6: Sbool = self.map(graph, MapFn::Bit(6));
        let b7: Sbool = self.map(graph, MapFn::Bit(7));
        [b0, b1, b2, b3, b4, b5, b6, b7]
    }
}

impl BufferedSignal<i64> {
    /// A node that yields this node's sample brought into plus or minus half
    /// of the sample rate.
    pub fn clamp_nyquist<S: SignalTrait>(self, graph: &mut Graph<S>) -> (s: Self)
        ensures
            s.id() == old(graph)@.nodes.len(),
            final(graph)@ == old(graph)@.with_node(
                NodeView::Apply { signal: self.id(), f: MapFn::ClampNyquist },
            ),
    {
        self.map(graph, MapFn::ClampNyquist)
    }

    /// The graph after `plus` or `times`: a node for the pair, then one that
    /// combines the pair by `f`.
    pub open spec fn combined<S: SignalTrait>(
        g: GraphView<S>,
        left: usize,
        right: usize,
        f: MapFn,
    ) -> GraphView<S> {
        g.with_node(NodeView::Both { left, right }).with_node(
            NodeView::Apply { signal: g.nodes.len() as usize, f },
        )
    }

    /// A node that yields the sum of this node's sample and that of `rhs`.
    pub fn plus<S: SignalTrait>(&self, graph: &mut Graph<S>, rhs: &Self) -> (s: Self)
        ensures
            s.id() == old(graph)@.nodes.len() + 1,
            final(graph)@ == Self::combined(old(graph)@, self.id(), rhs.id(), MapFn::Add),
    {
        let pair = self.both(graph, rhs);
        pair.map(graph, MapFn::Add)
    }

    /// A node that yields the product of this node's sample and that of `rhs`.
    pub fn times<S: SignalTrait>(&self, graph: &mut Graph<S>, rhs: &Self) -> (s: Self)
        ensures
            s.id() == old(graph)@.nodes.len() + 1,
            final(graph)@ == Self::combined(old(graph)@, self.id(), rhs.id(), MapFn::Mul),
    {
        let pair = self.both(graph, rhs);
        pair.map(graph, MapFn::Mul)
    }
}

/// A signal that is always the same value.
pub struct Const<T>(pub T);

impl<T: Sample + Copy> Const<T> {
    pub fn new(value: T) -> (c: Self)
        ensures
            c.0 == value,
    {
        Self(value)
    }

    /// Adds a node that always yields the value.
    pub fn buffered_signal<S: SignalTrait>(&self, graph: &mut Graph<S>) -> (s: BufferedSignal<T>)
        ensures
            s.id() == old(graph)@.nodes.len(),
            final(graph)@ == old(graph)@.with_node(NodeView::Const(self.0.to_value())),
    {
        BufferedSignal::new(graph, Node::Const(self.0.into_value()))
    }

    /// Adds a node that always yields the value.
    pub fn into_buffered_signal<S: SignalTrait>(self, graph: &mut Graph<S>) -> (s: BufferedSignal<
        T,
    >)
        ensures
            s.id() == old(graph)@.nodes.len(),
            final(graph)@ == old(graph)@.with_node(NodeView::Const(self.0.to_value())),
    {
        self.buffered_signal(graph)
    }
}

/// A constant signal of any sample type yields its value: the node that
/// `buffered_signal` adds for `value` samples to `value` in whatever tick
/// comes first, and keeps doing so.
pub proof fn law_const_samples<T: Sample, S: SignalTrait>(
    g: GraphView<S>,
    value: T,
    ctx: SignalCtx,
)
    ensures
        ({
            let id = g.nodes.len() as int;
            let made = g.with_node(NodeView::Const(value.to_value()));
            &&& T::of_value(made.eval(id, ctx).1) == value
            &&& made.eval(id, ctx).0.nodes[id].signal == made.nodes[id].signal
            &&& made.eval(id, ctx).0.nodes[id].buffered_sample == Some(value.to_value())
        }),
{
    let id = g.nodes.len() as int;
    let made = g.with_node(NodeView::Const(value.to_value()));
    made.law_const_always(id, ctx);
    T::law_round_trip(value);
}

/// A cell of any sample type gives back what was put into it, through
/// whichever handle: after `set` with `value`, `get` on a cell that is
/// there returns `value`.
pub proof fn law_get_after_set<T: Sample, S: SignalTrait>(g: GraphView<S>, cell: usize, value: T)
    requires
        cell < g.cells.len(),
    ensures
        T::of_value(g.with_cell(cell, value.to_value()).cell(cell)) == value,
{
    T::law_round_trip(value);
}

/// A new cell holds the value that it was made with: `get` right after
/// `new` with `value` returns `value`.
pub proof fn law_get_after_new<T: Sample, S: SignalTrait>(g: GraphView<S>, value: T)
    requires
        g.cells.len() <= usize::MAX,
    ensures
        T::of_value(g.with_new_cell(value.to_value()).cell(g.cells.len() as usize)) == value,
{
    T::law_round_trip(value);
}

/// A handle on a cell: a value that is set from outside the graph and read by
/// the nodes made from it.
pub struct Var<T> {
    cell: usize,
    marker: PhantomData<T>,
}

impl<T: Sample> Var<T> {
    /// The index of the cell that this handle names.
    pub closed spec fn cell_id(&self) -> usize {
        self.cell
    }

    /// A handle on the cell at `cell`.
    pub fn at(cell: usize) -> (v: Self)
        ensures
            v.cell_id() == cell,
    {
        Var { cell, marker: PhantomData }
    }

    /// Adds a cell that holds `value`.
    pub fn new<S: SignalTrait>(graph: &mut Graph<S>, value: T) -> (v: Self)
        ensures
            v.cell_id() == old(graph)@.cells.len(),
            final(graph)@ == old(graph)@.with_new_cell(value.to_value()),
    {
        Self::at(graph.add_cell(value.into_value()))
    }

    /// Another handle on the same cell.
    pub fn clone_ref(&self) -> (v: Self)
        ensures
            v.cell_id() == self.cell_id(),
    {
        Self::at(self.cell)
    }

    /// The value that the cell holds.
    pub fn get<S: SignalTrait>(&self, graph: &Graph<S>) -> (value: T)
        ensures
            value == T::of_value(graph@.cell(self.cell_id())),
    {
        T::from_value(graph.cell(self.cell))
    }

    /// Puts `value` into the cell.
    pub fn set<S: SignalTrait>(&self, graph: &mut Graph<S>, value: T)
        ensures
            final(graph)@ == old(graph)@.with_cell(self.cell_id(), value.to_value()),
    {
        graph.set_cell(self.cell, value.into_value())
    }

    /// Adds a node that yields what the cell holds.
    pub fn buffered_signal<S: SignalTrait>(&self, graph: &mut Graph<S>) -> (s: BufferedSignal<T>)
        ensures
            s.id() == old(graph)@.nodes.len(),
            final(graph)@ == old(graph)@.with_node(NodeView::Var { cell: self.cell_id() }),
    {
        BufferedSignal::new(graph, Node::Var { cell: self.cell })
    }

    /// Adds a node that yields what the cell holds.
    pub fn into_buffered_signal<S: SignalTrait>(self, graph: &mut Graph<S>) -> (s: BufferedSignal<
        T,
    >)
        ensures
            s.id() == old(graph)@.nodes.len(),
            final(graph)@ == old(graph)@.with_node(NodeView::Var { cell: self.cell_id() }),
    {
        self.buffered_signal(graph)
    }
}

/// A variable: a cell by its longer name.
pub type Variable<T> = Var<T>;

impl<T: Sample> Var<T> {
    /// Another handle on the same cell; the cell itself is not copied.
    pub fn shallow_clone(&self) -> (v: Self)
        ensures
            v.cell_id() == self.cell_id(),
    {
        self.clone_ref()
    }
}

impl Var<bool> {
    pub fn bool_var(&self) -> (b: BoolVar)
        ensures
            b == BoolVar::Var(*self),
    {
        BoolVar::Var(self.clone_ref())
    }
}

/// A momentary event: once set, the signal made from it is `true` in one
/// tick, and the cell is clear again.
pub struct TriggerVar {
    pub var: Var<bool>,
}

impl TriggerVar {
    /// Adds a cell that holds `false`.
    pub fn new<S: SignalTrait>(graph: &mut Graph<S>) -> (t: Self)
        ensures
            t.var.cell_id() == old(graph)@.cells.len(),
            final(graph)@ == old(graph)@.with_new_cell(Value::Bool(false)),
    {
        Self { var: Var::new(graph, false) }
    }

    /// Another handle on the same cell.
    pub fn clone_ref(&self) -> (t: Self)
        ensures
            t.var.cell_id() == self.var.cell_id(),
    {
        Self { var: self.var.clone_ref() }
    }

    /// Raises the event.
    pub fn set<S: SignalTrait>(&self, graph: &mut Graph<S>)
        ensures
            final(graph)@ == old(graph)@.with_cell(self.var.cell_id(), Value::Bool(true)),
    {
        self.var.set(graph, true);
    }

    /// Adds a node that yields what the cell holds and clears the cell.
    pub fn buffered_signal<S: SignalTrait>(&self, graph: &mut Graph<S>) -> (s: Sbool)
        ensures
            s.id() == old(graph)@.nodes.len(),
            final(graph)@ == old(graph)@.with_node(
                NodeView::TriggerVar { cell: self.var.cell_id() },
            ),
    {
        BufferedSignal::new(graph, Node::TriggerVar { cell: self.var.cell })
    }

    pub fn bool_var(&self) -> (b: BoolVar)
        ensures
            b == BoolVar::TriggerVar(*self),
    {
        BoolVar::TriggerVar(self.clone_ref())
    }
}

/// A gate or an event, for code that sets and clears either alike.
/// Clearing an event does nothing: it clears itself when read.
pub enum BoolVar {
    Var(Var<bool>),
    TriggerVar(TriggerVar),
}

impl BoolVar {
    /// The cell behind either kind.
    pub open spec fn cell_id(&self) -> usize {
        match self {
            BoolVar::Var(var) => var.cell_id(),
            BoolVar::TriggerVar(trigger_var) => trigger_var.var.cell_id(),
        }
    }

    pub fn set<S: SignalTrait>(&self, graph: &mut Graph<S>)
        ensures
            final(graph)@ == old(graph)@.with_cell(self.cell_id(), Value::Bool(true)),
    {
        match self {
            BoolVar::Var(var) => var.set(graph, true),
            BoolVar::TriggerVar(trigger_var) => trigger_var.set(graph),
        }
    }

    pub fn clear<S: SignalTrait>(&self, graph: &mut Graph<S>)
        ensures
            final(graph)@ == match self {
                BoolVar::Var(var) => old(graph)@.with_cell(var.cell_id(), Value::Bool(false)),
                BoolVar::TriggerVar(_) => old(graph)@,
            },
    {
        match self {
            BoolVar::Var(var) => var.set(graph, false),
            BoolVar::TriggerVar(_) => (),
        }
    }
}

} // verus!
