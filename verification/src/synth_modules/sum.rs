//! The unweighted mix of a list of signals.
use vstd::prelude::*;
use crate::fixed::{fx_add, sat};
use crate::node::{Poll, SignalCtx};
use crate::value::{nth_spec, Value};

verus! {

/// The nodes that are summed.
pub struct Props {
    pub signals: Vec<usize>,
}

pub struct PropsView {
    pub signals: Seq<usize>,
}

impl View for Props {
    type V = PropsView;

    open spec fn view(&self) -> PropsView {
        PropsView { signals: self.signals@ }
    }
}

/// The sum of the first `n` values of `got`, added up from the left.
pub open spec fn total_spec(got: Seq<Value>, n: nat) -> int
    decreases n,
{
    if n == 0 {
        0
    } else {
        sat(total_spec(got, (n - 1) as nat) + nth_spec(got, n - 1).num_spec())
    }
}

pub fn total(got: &Vec<Value>, n: usize) -> (r: i64)
    ensures
        r as int == total_spec(got@, n as nat),
{
    let mut acc: i64 = 0;
    let mut i: usize = 0;
    while i < n
        invariant
            i <= n,
            acc as int == total_spec(got@, i as nat),
        decreases n - i,
    {
        let x = if i < got.len() { got[i].as_num() } else { 0 };
        acc = fx_add(acc, x);
        i += 1;
    }
    acc
}

impl PropsView {
    /// One poll: each signal in turn, then their sum.
    pub open spec fn poll_spec(self, got: Seq<Value>, ctx: SignalCtx) -> Poll {
        if got.len() < self.signals.len() {
            Poll::Sample(self.signals[got.len() as int])
        } else {
            Poll::Ready(Value::Num(total_spec(got, self.signals.len()) as i64))
        }
    }
}

impl Props {
    pub fn new(signals: Vec<usize>) -> (p: Self)
        ensures
            p@.signals == signals@,
    {
        Self { signals }
    }

    pub fn poll(&self, got: &Vec<Value>, ctx: &SignalCtx) -> (p: Poll)
        ensures
            p == self@.poll_spec(got@, *ctx),
    {
        if got.len() < self.signals.len() {
            Poll::Sample(self.signals[got.len()])
        } else {
            Poll::Ready(Value::Num(total(got, self.signals.len())))
        }
    }
}

} // verus!
