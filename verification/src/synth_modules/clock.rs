//! A free-running square wave of half duty, the level behind a clock's pulses.
use vstd::prelude::*;
use crate::fixed::{next_phase, next_phase_spec, HALF};
use crate::node::{Poll, SignalCtx};
use crate::value::Value;

verus! {

#[derive(Clone, Copy)]
pub struct Props {
    pub frequency_hz: usize,
}

/// The clock: its wiring and its phase in `[0, 1)`.
#[derive(Clone, Copy)]
pub struct Signal {
    pub props: Props,
    pub state: i64,
}

impl Signal {
    pub fn new(props: Props) -> (s: Self)
        ensures
            s == (Signal { props, state: 0 }),
    {
        Signal { props, state: 0 }
    }

    /// One poll: the frequency, then whether the advanced phase lies in the
    /// first half of the cycle.
    pub open spec fn poll_spec(self, got: Seq<Value>, ctx: SignalCtx) -> (Self, Poll) {
        if got.len() == 0 {
            (self, Poll::Sample(self.props.frequency_hz))
        } else {
            let state = next_phase_spec(
                self.state as int,
                got[0].num_spec() as int,
                ctx.sample_rate as int,
            ) as i64;
            (Signal { props: self.props, state }, Poll::Ready(Value::Bool(state < HALF)))
        }
    }

    pub fn poll(&mut self, got: &Vec<Value>, ctx: &SignalCtx) -> (p: Poll)
        ensures
            (*final(self), p) == old(self).poll_spec(got@, *ctx),
    {
        if got.len() == 0 {
            return Poll::Sample(self.props.frequency_hz);
        }
        self.state = next_phase(self.state, got[0].as_num(), ctx.sample_rate);
        Poll::Ready(Value::Bool(self.state < HALF))
    }
}

} // verus!
