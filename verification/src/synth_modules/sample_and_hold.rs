//! Holds the sample that a signal had when a trigger last fired.
use vstd::prelude::*;
use crate::node::{Poll, SignalCtx};
use crate::value::Value;

verus! {

#[derive(Clone, Copy)]
pub struct Props {
    pub signal: usize,
    pub trigger: usize,
}

#[derive(Clone, Copy)]
pub struct Signal {
    pub props: Props,
    pub last_sample: i64,
}

impl Signal {
    pub fn new(props: Props) -> (s: Self)
        ensures
            s == (Signal { props, last_sample: 0 }),
    {
        Signal { props, last_sample: 0 }
    }

    /// One poll: the trigger; the signal only in a tick in which the trigger
    /// fires; then the held sample.
    pub open spec fn poll_spec(self, got: Seq<Value>, ctx: SignalCtx) -> (Self, Poll) {
        if got.len() == 0 {
            (self, Poll::Sample(self.props.trigger))
        } else if got[0].bool_spec() {
            if got.len() == 1 {
                (self, Poll::Sample(self.props.signal))
            } else {
                (
                    Signal { props: self.props, last_sample: got[1].num_spec() },
                    Poll::Ready(Value::Num(got[1].num_spec())),
                )
            }
        } else {
            (self, Poll::Ready(Value::Num(self.last_sample)))
        }
    }

    pub fn poll(&mut self, got: &Vec<Value>, ctx: &SignalCtx) -> (p: Poll)
        ensures
            (*final(self), p) == old(self).poll_spec(got@, *ctx),
    {
        if got.len() == 0 {
            return Poll::Sample(self.props.trigger);
        }
        if got[0].as_bool() {
            if got.len() == 1 {
                return Poll::Sample(self.props.signal);
            }
            self.last_sample = got[1].as_num();
        }
        Poll::Ready(Value::Num(self.last_sample))
    }
}

} // verus!
