//! The weighted mean of a list of signals, each with a weight signal.
use vstd::prelude::*;
use crate::fixed::{fx_add, fx_div, fx_mul, div_spec, mul_spec, sat};
use crate::node::{Poll, SignalCtx};
use crate::synth_modules::sum::{total, total_spec};
use crate::value::{nth_spec, Value};

verus! {

/// A signal and the signal that weighs it.
#[derive(Clone, Copy)]
pub struct WeightedSignal {
    pub weight: usize,
    pub signal: usize,
}

pub struct Props {
    pub weighted_signals: Vec<WeightedSignal>,
}

pub struct PropsView {
    pub weighted_signals: Seq<WeightedSignal>,
}

impl View for Props {
    type V = PropsView;

    open spec fn view(&self) -> PropsView {
        PropsView { weighted_signals: self.weighted_signals@ }
    }
}

/// The sum of the first `i` products of a weight and its signal, where `got`
/// holds `n` weights and then weight and signal in turn.
pub open spec fn products_spec(got: Seq<Value>, n: nat, i: nat) -> int
    decreases i,
{
    if i == 0 {
        0
    } else {
        sat(
            products_spec(got, n, (i - 1) as nat) + mul_spec(
                nth_spec(got, n + 2 * (i - 1)).num_spec() as int,
                nth_spec(got, n + 2 * (i - 1) + 1).num_spec() as int,
            ),
        )
    }
}

fn products(got: &Vec<Value>, n: usize) -> (r: i64)
    requires
        (got.len() - n) / 2 >= n,
        n <= got.len(),
    ensures
        r as int == products_spec(got@, n as nat, n as nat),
{
    let mut acc: i64 = 0;
    let mut i: usize = 0;
    while i < n
        invariant
            i <= n <= got.len(),
            (got.len() - n) / 2 >= n,
            acc as int == products_spec(got@, n as nat, i as nat),
        decreases n - i,
    {
        let w = got[n + 2 * i].as_num();
        let s = got[n + 2 * i + 1].as_num();
        acc = fx_add(acc, fx_mul(w, s));
        i += 1;
    }
    acc
}

impl PropsView {
    /// The mean once every value is in: the sum of the products divided by
    /// the sum of the weights.
    pub open spec fn mean_spec(self, got: Seq<Value>) -> int {
        let n = self.weighted_signals.len();
        div_spec(products_spec(got, n, n), total_spec(got, n))
    }

    /// One poll: every weight in turn; where their sum is zero, the number
    /// zero; else weight and signal of each entry in turn, then the mean.
    pub open spec fn poll_spec(self, got: Seq<Value>, ctx: SignalCtx) -> Poll {
        let n = self.weighted_signals.len();
        if got.len() < n {
            Poll::Sample(self.weighted_signals[got.len() as int].weight)
        } else if total_spec(got, n) == 0 {
            Poll::Ready(Value::Num(0))
        } else {
            let k = got.len() - n;
            if k / 2 < n {
                if k % 2 == 0 {
                    Poll::Sample(self.weighted_signals[k / 2].weight)
                } else {
                    Poll::Sample(self.weighted_signals[k / 2].signal)
                }
            } else {
                Poll::Ready(Value::Num(self.mean_spec(got) as i64))
            }
        }
    }

    /// Where every weight sampled in a tick is zero, the sample is exactly zero.
    pub proof fn law_zero_weights(self, got: Seq<Value>, ctx: SignalCtx)
        requires
            got.len() >= self.weighted_signals.len(),
            forall|i: int| 0 <= i < self.weighted_signals.len() ==> (#[trigger] got[i]).num_spec() == 0,
        ensures
            self.poll_spec(got, ctx) == Poll::Ready(Value::Num(0)),
    {
        lemma_total_of_zeros(got, self.weighted_signals.len());
    }
}

/// A sum of zeros is zero.
pub proof fn lemma_total_of_zeros(got: Seq<Value>, n: nat)
    requires
        n <= got.len(),
        forall|i: int| 0 <= i < n ==> (#[trigger] got[i]).num_spec() == 0,
    ensures
        total_spec(got, n) == 0,
    decreases n,
{
    if n > 0 {
        lemma_total_of_zeros(got, (n - 1) as nat);
        assert(got[n - 1].num_spec() == 0);
    }
}

impl Props {
    pub fn new(weighted_signals: Vec<WeightedSignal>) -> (p: Self)
        ensures
            p@.weighted_signals == weighted_signals@,
    {
        Self { weighted_signals }
    }

    pub fn poll(&self, got: &Vec<Value>, ctx: &SignalCtx) -> (p: Poll)
        ensures
            p == self@.poll_spec(got@, *ctx),
    {
        let n = self.weighted_signals.len();
        if got.len() < n {
            return Poll::Sample(self.weighted_signals[got.len()].weight);
        }
        let weights_sum = total(got, n);
        if weights_sum == 0 {
            return Poll::Ready(Value::Num(0));
        }
        let k = got.len() - n;
        if k / 2 < n {
            if k % 2 == 0 {
                Poll::Sample(self.weighted_signals[k / 2].weight)
            } else {
                Poll::Sample(self.weighted_signals[k / 2].signal)
            }
        } else {
            Poll::Ready(Value::Num(fx_div(products(got, n), weights_sum)))
        }
    }
}

} // verus!
