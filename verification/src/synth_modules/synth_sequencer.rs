//! A step sequencer that yields a frequency and a gate.
//!
//! Each pulse of the clock moves to the next step, wrapping at the end, and
//! opens the `gate` for the step's period. The sequencer starts on its last
//! step, so that the first pulse lands on the first.
use vstd::prelude::*;
use crate::fixed::{div_floor, lemma_product_bound, saturate, sat, ONE};
use crate::node::{Poll, SignalCtx};
use crate::value::{Scalar, Value};

verus! {

/// One step: the nodes that give its frequency and the time its gate is held.
#[derive(Clone, Copy)]
pub struct Step {
    pub frequency_hz: usize,
    pub period_seconds: usize,
}

pub struct Props {
    pub sequence: Vec<Step>,
    pub clock: usize,
}

/// The sequencer: its wiring, the step it is on, and how many ticks the `gate`
/// stays open, counted down once in every tick.
pub struct Signal {
    pub props: Props,
    pub step_index: usize,
    pub gate_remain_ticks: i64,
}

pub struct SignalView {
    pub sequence: Seq<Step>,
    pub clock: usize,
    pub step_index: usize,
    pub gate_remain_ticks: i64,
}

impl View for Signal {
    type V = SignalView;

    open spec fn view(&self) -> SignalView {
        SignalView {
            sequence: self.props.sequence@,
            clock: self.props.clock,
            step_index: self.step_index,
            gate_remain_ticks: self.gate_remain_ticks,
        }
    }
}

/// The step after `index` in a sequence of `len` steps, wrapping at the end.
pub open spec fn next_step_spec(index: int, len: int) -> int
    recommends
        len > 0,
{
    (index % len + 1) % len
}

pub fn next_step(index: usize, len: usize) -> (r: usize)
    requires
        len > 0,
    ensures
        r as int == next_step_spec(index as int, len as int),
        r < len,
{
    let i = index % len;
    if i + 1 == len {
        proof {
            vstd::arithmetic::div_mod::lemma_mod_self_0(len as int);
        }
        0
    } else {
        proof {
            vstd::arithmetic::div_mod::lemma_small_mod((i + 1) as nat, len as nat);
        }
        i + 1
    }
}

/// The number of whole ticks in a period: `period * sample_rate`, rounded down.
pub open spec fn period_ticks_spec(period_seconds: int, sample_rate: int) -> int {
    sat((period_seconds * sample_rate) / (ONE as int))
}

pub fn period_ticks(period_seconds: i64, sample_rate: u32) -> (r: i64)
    ensures
        r as int == period_ticks_spec(period_seconds as int, sample_rate as int),
{
    proof {
        lemma_product_bound(period_seconds as int, sample_rate as int);
    }
    let p: i128 = (period_seconds as i128) * (sample_rate as i128);
    saturate(div_floor(p, ONE as i128))
}

/// The step that the sequencer is on after `pulses` pulses of the clock.
pub open spec fn step_after_spec(len: int, pulses: nat) -> int
    recommends
        len > 0,
    decreases pulses,
{
    if pulses == 0 {
        len - 1
    } else {
        next_step_spec(step_after_spec(len, (pulses - 1) as nat), len)
    }
}

/// The ticks that remain of a gate `ticks` ticks after it was opened for
/// `period` ticks, the tick of the pulse counted as the first.
pub open spec fn remain_after_spec(period: int, ticks: nat) -> int
    decreases ticks,
{
    if ticks == 0 {
        period
    } else {
        sat(remain_after_spec(period, (ticks - 1) as nat) - 1)
    }
}

/// The steps come in order and wrap: the first pulse lands on step 0, the
/// next on step 1, and after the last step the sequence starts again.
pub proof fn law_wraparound(len: int, pulses: nat)
    requires
        len > 0,
        pulses > 0,
    ensures
        step_after_spec(len, pulses) == (pulses - 1) % len,
    decreases pulses,
{
    if pulses == 1 {
        assert(step_after_spec(len, 0) == len - 1);
        assert(step_after_spec(len, 1) == next_step_spec(len - 1, len));
        vstd::arithmetic::div_mod::lemma_small_mod((len - 1) as nat, len as nat);
        vstd::arithmetic::div_mod::lemma_mod_self_0(len);
        vstd::arithmetic::div_mod::lemma_small_mod(0, len as nat);
    } else {
        law_wraparound(len, (pulses - 1) as nat);
        let prev = (pulses - 2) % len;
        vstd::arithmetic::div_mod::lemma_mod_bound(pulses - 2, len);
        vstd::arithmetic::div_mod::lemma_small_mod(prev as nat, len as nat);
        vstd::arithmetic::div_mod::lemma_add_mod_noop(pulses - 2, 1, len);
        vstd::arithmetic::div_mod::lemma_mod_bound(1, len);
        if len == 1 {
            assert((prev + 1) % len == 0);
            assert((pulses - 1) % len == 0);
        } else {
            vstd::arithmetic::div_mod::lemma_small_mod(1, len as nat);
        }
    }
}

/// A gate that was opened for `period` ticks is open in exactly that many
/// ticks: in the tick of the pulse and the `period - 1` ticks after it.
pub proof fn law_gate_length(period: int, ticks: nat)
    requires
        i64::MIN <= period <= i64::MAX,
        ticks > 0,
    ensures
        remain_after_spec(period, ticks) >= 0 <==> ticks <= period,
        remain_after_spec(period, ticks) == sat(period - ticks),
    decreases ticks,
{
    if ticks > 1 {
        law_gate_length(period, (ticks - 1) as nat);
    } else {
        assert(remain_after_spec(period, 0) == period);
    }
}

/// Counting down tick by tick is counting down all at once: what remains
/// after `a` ticks and then `b` more is what remains after `a + b` ticks.
pub proof fn law_gate_counts_down(period: int, a: nat, b: nat)
    ensures
        remain_after_spec(remain_after_spec(period, a), b) == remain_after_spec(period, a + b),
    decreases b,
{
    if b > 0 {
        law_gate_counts_down(period, a, (b - 1) as nat);
    }
}

impl SignalView {
    /// One poll: the clock; in a tick with a pulse the period of the next
    /// step; then the frequency of the step that the sequencer is on. The
    /// sample is the frequency and whether the `gate` is open. An empty
    /// sequence yields frequency zero and a closed gate.
    pub open spec fn poll_spec(self, got: Seq<Value>, ctx: SignalCtx) -> (Self, Poll) {
        let len = self.sequence.len() as int;
        if len == 0 {
            (self, Poll::Ready(Value::Pair(Scalar::Num(0), Scalar::Bool(false))))
        } else if got.len() == 0 {
            (self, Poll::Sample(self.clock))
        } else if got[0].bool_spec() {
            let index = next_step_spec(self.step_index as int, len);
            if got.len() == 1 {
                (self, Poll::Sample(self.sequence[index].period_seconds))
            } else if got.len() == 2 {
                (self, Poll::Sample(self.sequence[index].frequency_hz))
            } else {
                let remain = sat(
                    period_ticks_spec(got[1].num_spec() as int, ctx.sample_rate as int) - 1,
                ) as i64;
                (
                    SignalView { step_index: index as usize, gate_remain_ticks: remain, ..self },
                    Poll::Ready(Value::Pair(Scalar::Num(got[2].num_spec()), Scalar::Bool(remain >= 0))),
                )
            }
        } else {
            let index = self.step_index as int % len;
            if got.len() == 1 {
                (self, Poll::Sample(self.sequence[index].frequency_hz))
            } else {
                let remain = sat(self.gate_remain_ticks - 1) as i64;
                (
                    SignalView { step_index: index as usize, gate_remain_ticks: remain, ..self },
                    Poll::Ready(Value::Pair(Scalar::Num(got[1].num_spec()), Scalar::Bool(remain >= 0))),
                )
            }
        }
    }

    /// What one tick does to the sequencer, in the terms of the two laws
    /// above. A tick with a pulse moves to the next step and opens its gate
    /// for that step's period, the tick itself counted; a tick without stays
    /// on the step and counts one tick off. Either way its gate is open
    /// while ticks remain.
    pub proof fn law_tick(self, got: Seq<Value>, ctx: SignalCtx)
        requires
            0 < self.sequence.len() <= usize::MAX,
            self.poll_spec(got, ctx).1 is Ready,
        ensures
            ({
                let len = self.sequence.len() as int;
                let after = self.poll_spec(got, ctx).0;
                let out = self.poll_spec(got, ctx).1->Ready_0;
                &&& after.sequence == self.sequence
                &&& after.clock == self.clock
                &&& 0 <= after.step_index < len
                &&& out.second_spec() == Value::Bool(after.gate_remain_ticks >= 0)
                &&& got[0].bool_spec() ==> {
                    &&& after.step_index == next_step_spec(self.step_index as int, len)
                    &&& after.gate_remain_ticks == remain_after_spec(
                        period_ticks_spec(got[1].num_spec() as int, ctx.sample_rate as int),
                        1,
                    )
                    &&& out.first_spec() == Value::Num(got[2].num_spec())
                }
                &&& !got[0].bool_spec() ==> {
                    &&& after.step_index == self.step_index as int % len
                    &&& after.gate_remain_ticks == remain_after_spec(
                        self.gate_remain_ticks as int,
                        1,
                    )
                    &&& out.first_spec() == Value::Num(got[1].num_spec())
                }
            }),
    {
        let len = self.sequence.len() as int;
        vstd::arithmetic::div_mod::lemma_mod_bound(self.step_index as int, len);
        vstd::arithmetic::div_mod::lemma_mod_bound(self.step_index as int % len + 1, len);
        reveal_with_fuel(remain_after_spec, 2);
    }
}

impl Signal {
    /// A sequencer on its last step with the `gate` closed.
    pub fn new(props: Props) -> (s: Self)
        ensures
            s@ == (SignalView {
                sequence: props.sequence@,
                clock: props.clock,
                step_index: if props.sequence@.len() == 0 {
                    0
                } else {
                    (props.sequence@.len() - 1) as usize
                },
                gate_remain_ticks: 0,
            }),
    {
        let step_index = if props.sequence.len() == 0 { 0 } else { props.sequence.len() - 1 };
        Signal { props, step_index, gate_remain_ticks: 0 }
    }

    pub fn poll(&mut self, got: &Vec<Value>, ctx: &SignalCtx) -> (p: Poll)
        ensures
            (final(self)@, p) == old(self)@.poll_spec(got@, *ctx),
    {
        let len = self.props.sequence.len();
        if len == 0 {
            return Poll::Ready(Value::Pair(Scalar::Num(0), Scalar::Bool(false)));
        }
        if got.len() == 0 {
            return Poll::Sample(self.props.clock);
        }
        if got[0].as_bool() {
            let index = next_step(self.step_index, len);
            if got.len() == 1 {
                return Poll::Sample(self.props.sequence[index].period_seconds);
            }
            if got.len() == 2 {
                return Poll::Sample(self.props.sequence[index].frequency_hz);
            }
            let remain = saturate(period_ticks(got[1].as_num(), ctx.sample_rate) as i128 - 1);
            self.step_index = index;
            self.gate_remain_ticks = remain;
            Poll::Ready(Value::Pair(Scalar::Num(got[2].as_num()), Scalar::Bool(remain >= 0)))
        } else {
            let index = self.step_index % len;
            if got.len() == 1 {
                return Poll::Sample(self.props.sequence[index].frequency_hz);
            }
            let remain = saturate(self.gate_remain_ticks as i128 - 1);
            self.step_index = index;
            self.gate_remain_ticks = remain;
            Poll::Ready(Value::Pair(Scalar::Num(got[1].as_num()), Scalar::Bool(remain >= 0)))
        }
    }
}

} // verus!
