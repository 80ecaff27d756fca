//! A step sequencer for eight trigger channels.
//!
//! Each step is a signal of bytes, one bit for each channel. In the tick of
//! a clock pulse the sequencer moves to the next step and yields that step's
//! byte; in every other tick it yields zero, so that each set bit is a pulse
//! of one tick.
use vstd::prelude::*;
use crate::node::{Poll, SignalCtx};
use crate::synth_modules::synth_sequencer::{next_step, next_step_spec};
use crate::value::Value;

verus! {

pub struct Props {
    pub sequence: Vec<usize>,
    pub clock: usize,
}

pub struct Signal {
    pub props: Props,
    pub step_index: usize,
}

pub struct SignalView {
    pub sequence: Seq<usize>,
    pub clock: usize,
    pub step_index: usize,
}

impl View for Signal {
    type V = SignalView;

    open spec fn view(&self) -> SignalView {
        SignalView {
            sequence: self.props.sequence@,
            clock: self.props.clock,
            step_index: self.step_index,
        }
    }
}

impl SignalView {
    /// One poll: the clock; in a tick with a pulse the next step's byte,
    /// which is the sample; in a tick without, the sample is zero.
    pub open spec fn poll_spec(self, got: Seq<Value>, ctx: SignalCtx) -> (Self, Poll) {
        let len = self.sequence.len() as int;
        if len == 0 {
            (self, Poll::Ready(Value::Byte(0)))
        } else if got.len() == 0 {
            (self, Poll::Sample(self.clock))
        } else if got[0].bool_spec() {
            let index = next_step_spec(self.step_index as int, len);
            if got.len() == 1 {
                (self, Poll::Sample(self.sequence[index]))
            } else {
                (
                    SignalView { step_index: index as usize, ..self },
                    Poll::Ready(Value::Byte(got[1].byte_spec())),
                )
            }
        } else {
            (self, Poll::Ready(Value::Byte(0)))
        }
    }
}

impl Signal {
    /// A sequencer on its last step.
    pub fn new(props: Props) -> (s: Self)
        ensures
            s@ == (SignalView {
                sequence: props.sequence@,
                clock: props.clock,
                step_index: if props.sequence@.len() == 0 {
                    0
                } else {
                    (props.sequence@.len() - 1) as usize
                },
            }),
    {
        let step_index = if props.sequence.len() == 0 { 0 } else { props.sequence.len() - 1 };
        Signal { props, step_index }
    }

    pub fn poll(&mut self, got: &Vec<Value>, ctx: &SignalCtx) -> (p: Poll)
        ensures
            (final(self)@, p) == old(self)@.poll_spec(got@, *ctx),
    {
        let len = self.props.sequence.len();
        if len == 0 {
            return Poll::Ready(Value::Byte(0));
        }
        if got.len() == 0 {
            return Poll::Sample(self.props.clock);
        }
        if got[0].as_bool() {
            let index = next_step(self.step_index, len);
            if got.len() == 1 {
                return Poll::Sample(self.props.sequence[index]);
            }
            self.step_index = index;
            Poll::Ready(Value::Byte(got[1].as_byte()))
        } else {
            Poll::Ready(Value::Byte(0))
        }
    }
}

} // verus!
