//! Moving-average filters: the mean of the last samples as a low pass, and
//! the input less that mean as a high pass.
use vstd::prelude::*;
use std::collections::VecDeque;
use crate::fixed::{div_floor, fx_sub, saturate, sat};
use crate::node::{Poll, SignalCtx};
use crate::value::Value;

verus! {

#[derive(Clone, Copy)]
pub struct Props {
    pub signal: usize,
    pub width: usize,
}

/// The filter: its wiring, the window of the last samples with the oldest
/// first, and whether it yields the high pass.
pub struct Signal {
    pub props: Props,
    pub buffer: VecDeque<i64>,
    pub high_pass: bool,
}

pub struct SignalView {
    pub props: Props,
    pub buffer: Seq<i64>,
    pub high_pass: bool,
}

impl View for Signal {
    type V = SignalView;

    open spec fn view(&self) -> SignalView {
        SignalView { props: self.props, buffer: self.buffer@, high_pass: self.high_pass }
    }
}

/// How many samples a window holds where the width signal says `width`:
/// that many, and one where it says none, so that there is always a sample
/// to take the mean of.
pub open spec fn capacity_spec(width: u32) -> int {
    if width == 0 {
        1
    } else {
        width as int
    }
}

/// The window after sample `x` has come in: as many of the newest samples as
/// fit beside it, then `x`.
pub open spec fn window_spec(buffer: Seq<i64>, capacity: int, x: i64) -> Seq<i64> {
    let keep = if buffer.len() >= capacity {
        capacity - 1
    } else {
        buffer.len() as int
    };
    buffer.subrange(buffer.len() - keep, buffer.len() as int).push(x)
}

/// The sum of the first `n` samples of a window.
pub open spec fn window_sum_spec(window: Seq<i64>, n: nat) -> int
    decreases n,
{
    if n == 0 {
        0
    } else {
        window_sum_spec(window, (n - 1) as nat) + window[n - 1]
    }
}

/// The arithmetic mean of a window, rounded down; zero for an empty one.
pub open spec fn mean_spec(window: Seq<i64>) -> int {
    if window.len() == 0 {
        0
    } else {
        sat(window_sum_spec(window, window.len()) / (window.len() as int))
    }
}

proof fn lemma_sum_step_bound(acc: int, x: int, i: int)
    requires
        -0x8000_0000_0000_0000 * i <= acc <= 0x8000_0000_0000_0000 * i,
        -0x8000_0000_0000_0000 <= x <= 0x8000_0000_0000_0000,
        0 <= i,
    ensures
        -0x8000_0000_0000_0000 * (i + 1) <= acc + x <= 0x8000_0000_0000_0000 * (i + 1),
{
    assert(0x8000_0000_0000_0000 * (i + 1) == 0x8000_0000_0000_0000 * i + 0x8000_0000_0000_0000)
        by (nonlinear_arith);
    assert(-0x8000_0000_0000_0000 * (i + 1) == -0x8000_0000_0000_0000 * i - 0x8000_0000_0000_0000)
        by (nonlinear_arith);
}

/// The mean of a window.
pub fn mean(window: &VecDeque<i64>) -> (r: i64)
    ensures
        r as int == mean_spec(window@),
{
    let n = window.len();
    if n == 0 {
        return 0;
    }
    let mut acc: i128 = 0;
    let mut i: usize = 0;
    while i < n
        invariant
            i <= n,
            n == window@.len(),
            acc as int == window_sum_spec(window@, i as nat),
            -0x8000_0000_0000_0000 * (i as int) <= acc as int <= 0x8000_0000_0000_0000 * (i as int),
        decreases n - i,
    {
        proof {
            lemma_sum_step_bound(acc as int, window@[i as int] as int, i as int);
            assert(0x8000_0000_0000_0000 * (i as int + 1) <= 0x8000_0000_0000_0000
                * 0xffff_ffff_ffff_ffff) by (nonlinear_arith)
                requires i as int + 1 <= 0xffff_ffff_ffff_ffff;
        }
        acc = acc + window[i] as i128;
        i += 1;
    }
    proof {
        assert(0x8000_0000_0000_0000 * (n as int) <= 0x8000_0000_0000_0000
            * 0xffff_ffff_ffff_ffff) by (nonlinear_arith)
            requires n as int <= 0xffff_ffff_ffff_ffff;
    }
    saturate(div_floor(acc, n as i128))
}

impl SignalView {
    /// One poll: the width, then the signal, then the mean of the window
    /// with the new sample in it, or the new sample less that mean.
    pub open spec fn poll_spec(self, got: Seq<Value>, ctx: SignalCtx) -> (Self, Poll) {
        if got.len() == 0 {
            (self, Poll::Sample(self.props.width))
        } else if got.len() == 1 {
            (self, Poll::Sample(self.props.signal))
        } else {
            let x = got[1].num_spec();
            let window = window_spec(self.buffer, capacity_spec(got[0].count_spec()), x);
            let low = mean_spec(window);
            (
                SignalView { buffer: window, ..self },
                Poll::Ready(
                    Value::Num(
                        if self.high_pass {
                            sat(x - low) as i64
                        } else {
                            low as i64
                        },
                    ),
                ),
            )
        }
    }
}

impl Signal {
    pub fn new(props: Props, high_pass: bool) -> (s: Self)
        ensures
            s@ == (SignalView { props, buffer: Seq::empty(), high_pass }),
    {
        Signal { props, buffer: VecDeque::new(), high_pass }
    }

    pub fn poll(&mut self, got: &Vec<Value>, ctx: &SignalCtx) -> (p: Poll)
        ensures
            (final(self)@, p) == old(self)@.poll_spec(got@, *ctx),
    {
        if got.len() == 0 {
            return Poll::Sample(self.props.width);
        }
        if got.len() == 1 {
            return Poll::Sample(self.props.signal);
        }
        let width = got[0].as_count();
        let capacity: u64 = if width == 0 { 1 } else { width as u64 };
        let x = got[1].as_num();
        let ghost start = self.buffer@;
        while self.buffer.len() as u64 >= capacity
            invariant
                capacity >= 1,
                self.props == old(self).props,
                self.high_pass == old(self).high_pass,
                self.buffer@.len() <= start.len(),
                self.buffer@.len() == start.len() || self.buffer@.len() >= capacity - 1,
                self.buffer@ == start.subrange(start.len() - self.buffer@.len(), start.len() as int),
            decreases self.buffer@.len(),
        {
            self.buffer.pop_front();
            assert(self.buffer@ =~= start.subrange(
                start.len() - self.buffer@.len(),
                start.len() as int,
            ));
        }
        self.buffer.push_back(x);
        assert(self.buffer@ =~= window_spec(start, capacity as int, x));
        let low = mean(&self.buffer);
        if self.high_pass {
            Poll::Ready(Value::Num(fx_sub(x, low)))
        } else {
            Poll::Ready(Value::Num(low))
        }
    }
}

} // verus!
