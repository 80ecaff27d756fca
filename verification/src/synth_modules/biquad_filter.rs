//! Cascaded second-order filter sections in direct form.
//!
//! Each section has coefficients `a`, `d1`, `d2` and a history of two values.
//! The coefficients of a section come from a signal of triples, sampled in
//! every tick, so that a filter can be swept while it runs.
use vstd::prelude::*;
use crate::fixed::{fx_add, fx_mul, fx_sub, mul_spec, sat};
use crate::node::{Poll, SignalCtx};
use crate::value::{nth_spec, Value};

verus! {

/// The least ripple that a Chebyshev filter is designed for: 0.01.
pub const EPSILON_MIN: i64 = 42949673;

/// The least cutoff that a filter is designed for, as a share of the sample
/// rate: 0.001.
pub const CUTOFF_MIN: i64 = 4294967;

/// One section: coefficients and history.
#[derive(Debug, Clone, Copy, PartialEq, Eq, Structural)]
pub struct BufferEntry {
    pub a: i64,
    pub d1: i64,
    pub d2: i64,
    pub w0: i64,
    pub w1: i64,
    pub w2: i64,
}

/// Which side of the cutoff a filter lets through.
#[derive(Debug, Clone, Copy, PartialEq, Eq, Structural)]
pub enum Pass {
    Low,
    High,
}

/// The sections of a filter, in the order in which a sample runs through them.
pub struct Buffer {
    pub entries: Vec<BufferEntry>,
}

impl View for Buffer {
    type V = Seq<BufferEntry>;

    open spec fn view(&self) -> Seq<BufferEntry> {
        self.entries@
    }
}

/// A section after one sample, and what it hands on:
/// `w0 = d1*w1 + d2*w2 + x`, `y = a*(w0 + 2*w1 + w2)` for a low pass and
/// `y = a*(w0 - 2*w1 + w2)` for a high pass, then the history moves on.
pub open spec fn section_spec(entry: BufferEntry, sample: i64, pass: Pass) -> (BufferEntry, i64) {
    let w0 = sat(
        sat(mul_spec(entry.d1 as int, entry.w1 as int) + mul_spec(entry.d2 as int, entry.w2 as int))
            + sample,
    );
    let twice = sat(2 * entry.w1);
    let inner = match pass {
        Pass::Low => sat(sat(w0 + twice) + entry.w2),
        Pass::High => sat(sat(w0 - twice) + entry.w2),
    };
    let y = mul_spec(entry.a as int, inner);
    (BufferEntry { w0: w0 as i64, w1: w0 as i64, w2: entry.w1, ..entry }, y as i64)
}

pub fn section(entry: BufferEntry, sample: i64, pass: Pass) -> (r: (BufferEntry, i64))
    ensures
        r == section_spec(entry, sample, pass),
{
    let w0 = fx_add(fx_add(fx_mul(entry.d1, entry.w1), fx_mul(entry.d2, entry.w2)), sample);
    let twice = fx_add(entry.w1, entry.w1);
    let inner = match pass {
        Pass::Low => fx_add(fx_add(w0, twice), entry.w2),
        Pass::High => fx_add(fx_sub(w0, twice), entry.w2),
    };
    let y = fx_mul(entry.a, inner);
    (BufferEntry { a: entry.a, d1: entry.d1, d2: entry.d2, w0, w1: w0, w2: entry.w1 }, y)
}

/// The sections and the sample after the sample has run through the first `n` sections.
pub open spec fn apply_spec(entries: Seq<BufferEntry>, sample: i64, pass: Pass, n: nat) -> (
    Seq<BufferEntry>,
    i64,
)
    decreases n,
{
    if n == 0 || n > entries.len() {
        (entries, sample)
    } else {
        let (before, x) = apply_spec(entries, sample, pass, (n - 1) as nat);
        let (entry, y) = section_spec(before[n - 1], x, pass);
        (before.update(n - 1, entry), y)
    }
}

/// The sections with the coefficients of the first `n` taken from the
/// triples that follow the first value of `got`.
pub open spec fn with_coefficients_spec(entries: Seq<BufferEntry>, got: Seq<Value>, n: nat) -> Seq<
    BufferEntry,
>
    decreases n,
{
    if n == 0 || n > entries.len() {
        entries
    } else {
        let before = with_coefficients_spec(entries, got, (n - 1) as nat);
        before.update(
            n - 1,
            BufferEntry {
                a: nth_spec(got, n as int).first_spec().num_spec(),
                d1: nth_spec(got, n as int).second_spec().num_spec(),
                d2: nth_spec(got, n as int).third_spec().num_spec(),
                ..before[n - 1]
            },
        )
    }
}

pub proof fn lemma_with_coefficients_len(entries: Seq<BufferEntry>, got: Seq<Value>, n: nat)
    ensures
        with_coefficients_spec(entries, got, n).len() == entries.len(),
    decreases n,
{
    if !(n == 0 || n > entries.len()) {
        lemma_with_coefficients_len(entries, got, (n - 1) as nat);
    }
}

/// `n` sections at rest: coefficients and history all zero.
pub open spec fn rest_spec(n: nat) -> Seq<BufferEntry> {
    Seq::new(n, |i: int| BufferEntry { a: 0, d1: 0, d2: 0, w0: 0, w1: 0, w2: 0 })
}

impl Buffer {
    /// As many sections as asked for, all of them at rest.
    pub fn new(filter_order_half: usize) -> (b: Self)
        ensures
            b@ == rest_spec(filter_order_half as nat),
    {
        let mut entries: Vec<BufferEntry> = Vec::new();
        let mut i: usize = 0;
        while i < filter_order_half
            invariant
                i <= filter_order_half,
                entries@.len() == i,
                forall|j: int|
                    0 <= j < i ==> #[trigger] entries@[j] == (BufferEntry {
                        a: 0,
                        d1: 0,
                        d2: 0,
                        w0: 0,
                        w1: 0,
                        w2: 0,
                    }),
            decreases filter_order_half - i,
        {
            entries.push(BufferEntry { a: 0, d1: 0, d2: 0, w0: 0, w1: 0, w2: 0 });
            i += 1;
        }
        assert(entries@ =~= rest_spec(filter_order_half as nat));
        Buffer { entries }
    }

    /// Runs a sample through every section.
    pub fn apply(&mut self, sample: i64, pass: Pass) -> (out: i64)
        ensures
            (final(self)@, out) == apply_spec(old(self)@, sample, pass, old(self)@.len()),
    {
        let n = self.entries.len();
        let mut x = sample;
        let mut i: usize = 0;
        while i < n
            invariant
                i <= n,
                n == self.entries@.len(),
                n == old(self)@.len(),
                (self@, x) == apply_spec(old(self)@, sample, pass, i as nat),
            decreases n - i,
        {
            let (entry, y) = section(self.entries[i], x, pass);
            self.entries[i] = entry;
            x = y;
            i += 1;
        }
        x
    }

    /// Runs a sample through every section of a low pass.
    pub fn apply_low_pass(&mut self, sample: i64) -> (out: i64)
        ensures
            (final(self)@, out) == apply_spec(old(self)@, sample, Pass::Low, old(self)@.len()),
    {
        self.apply(sample, Pass::Low)
    }

    /// Runs a sample through every section of a high pass.
    pub fn apply_high_pass(&mut self, sample: i64) -> (out: i64)
        ensures
            (final(self)@, out) == apply_spec(old(self)@, sample, Pass::High, old(self)@.len()),
    {
        self.apply(sample, Pass::High)
    }

    /// Takes the coefficients of the first `n` sections from the triples
    /// that follow the first value of `got`.
    pub fn update_entries(&mut self, got: &Vec<Value>, n: usize)
        ensures
            final(self)@ == with_coefficients_spec(old(self)@, got@, n as nat),
    {
        if n > self.entries.len() {
            return;
        }
        let mut i: usize = 0;
        while i < n
            invariant
                i <= n <= self.entries@.len(),
                self.entries@.len() == old(self)@.len(),
                self@ == with_coefficients_spec(old(self)@, got@, i as nat),
            decreases n - i,
        {
            let triple = if i + 1 < got.len() { got[i + 1] } else { Value::Num(0) };
            let entry = self.entries[i];
            self.entries[i] = BufferEntry {
                a: triple.first().as_num(),
                d1: triple.second().as_num(),
                d2: triple.third().as_num(),
                w0: entry.w0,
                w1: entry.w1,
                w2: entry.w2,
            };
            i += 1;
        }
    }
}

/// The nodes that a filter is wired to: the signal, and for each section in
/// turn the signal of its coefficients.
pub struct Props {
    pub signal: usize,
    pub coefficients: Vec<usize>,
}

/// A filter: its wiring, its kind and its sections.
pub struct Signal {
    pub props: Props,
    pub pass: Pass,
    pub buffer: Buffer,
}

pub struct SignalView {
    pub signal: usize,
    pub coefficients: Seq<usize>,
    pub pass: Pass,
    pub buffer: Seq<BufferEntry>,
}

impl View for Signal {
    type V = SignalView;

    open spec fn view(&self) -> SignalView {
        SignalView {
            signal: self.props.signal,
            coefficients: self.props.coefficients@,
            pass: self.pass,
            buffer: self.buffer@,
        }
    }
}

impl SignalView {
    /// How many sections take their coefficients from a signal.
    pub open spec fn driven(self) -> nat {
        if self.coefficients.len() <= self.buffer.len() {
            self.coefficients.len()
        } else {
            self.buffer.len()
        }
    }

    /// One poll: the signal; with no section, that sample as it is; else the
    /// coefficients of each section in turn, then the sample run through
    /// the sections.
    pub open spec fn poll_spec(self, got: Seq<Value>, ctx: SignalCtx) -> (Self, Poll) {
        if got.len() == 0 {
            (self, Poll::Sample(self.signal))
        } else if self.buffer.len() == 0 {
            (self, Poll::Ready(got[0]))
        } else if got.len() <= self.driven() {
            (self, Poll::Sample(self.coefficients[got.len() - 1]))
        } else {
            let entries = with_coefficients_spec(self.buffer, got, self.driven());
            let (buffer, out) = apply_spec(entries, got[0].num_spec(), self.pass, entries.len());
            (SignalView { buffer, ..self }, Poll::Ready(Value::Num(out)))
        }
    }

    /// A filter without sections hands its input on unchanged, sample for
    /// sample, and stays as it is.
    pub proof fn law_identity_at_zero_order(self, x: Value, ctx: SignalCtx)
        requires
            self.buffer.len() == 0,
        ensures
            self.poll_spec(Seq::empty(), ctx) == (self, Poll::Sample(self.signal)),
            self.poll_spec(seq![x], ctx) == (self, Poll::Ready(x)),
    {
    }
}

impl Signal {
    pub fn new(props: Props, pass: Pass, filter_order_half: usize) -> (s: Self)
        ensures
            s@ == (SignalView {
                signal: props.signal,
                coefficients: props.coefficients@,
                pass,
                buffer: rest_spec(filter_order_half as nat),
            }),
    {
        Signal { props, pass, buffer: Buffer::new(filter_order_half) }
    }

    pub fn poll(&mut self, got: &Vec<Value>, ctx: &SignalCtx) -> (p: Poll)
        ensures
            (final(self)@, p) == old(self)@.poll_spec(got@, *ctx),
    {
        if got.len() == 0 {
            return Poll::Sample(self.props.signal);
        }
        if self.buffer.entries.len() == 0 {
            return Poll::Ready(got[0]);
        }
        let driven = if self.props.coefficients.len() <= self.buffer.entries.len() {
            self.props.coefficients.len()
        } else {
            self.buffer.entries.len()
        };
        if got.len() <= driven {
            return Poll::Sample(self.props.coefficients[got.len() - 1]);
        }
        self.buffer.update_entries(got, driven);
        proof {
            lemma_with_coefficients_len(old(self)@.buffer, got@, driven as nat);
        }
        let out = self.buffer.apply(got[0].as_num(), self.pass);
        Poll::Ready(Value::Num(out))
    }
}

} // verus!
