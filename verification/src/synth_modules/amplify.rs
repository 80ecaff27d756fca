//! A gain stage that is silent where the gain is close to zero.
use vstd::prelude::*;
use crate::fixed::{fx_abs, fx_mul, abs_spec, mul_spec, SIXTY_FOURTH};
use crate::node::{Poll, SignalCtx};
use crate::value::Value;

verus! {

/// The gain at or below which the output is silent.
pub const THRESHOLD: i64 = SIXTY_FOURTH;

#[derive(Clone, Copy)]
pub struct Props {
    pub signal: usize,
    pub by: usize,
}

/// The signal times the gain; exactly zero where the gain is within the
/// threshold of zero.
pub open spec fn amplify_spec(signal: int, by: int) -> int {
    if abs_spec(by) > THRESHOLD {
        mul_spec(signal, by)
    } else {
        0
    }
}

impl Props {
    /// One poll: the gain; the signal only where the gain is above the threshold.
    pub open spec fn poll_spec(self, got: Seq<Value>, ctx: SignalCtx) -> Poll {
        if got.len() == 0 {
            Poll::Sample(self.by)
        } else if abs_spec(got[0].num_spec() as int) > THRESHOLD {
            if got.len() == 1 {
                Poll::Sample(self.signal)
            } else {
                Poll::Ready(
                    Value::Num(
                        amplify_spec(got[1].num_spec() as int, got[0].num_spec() as int) as i64,
                    ),
                )
            }
        } else {
            Poll::Ready(Value::Num(0))
        }
    }

    pub fn poll(&self, got: &Vec<Value>, ctx: &SignalCtx) -> (p: Poll)
        ensures
            p == self.poll_spec(got@, *ctx),
    {
        if got.len() == 0 {
            return Poll::Sample(self.by);
        }
        let by = got[0].as_num();
        if fx_abs(by) > THRESHOLD {
            if got.len() == 1 {
                Poll::Sample(self.signal)
            } else {
                Poll::Ready(Value::Num(fx_mul(got[1].as_num(), by)))
            }
        } else {
            Poll::Ready(Value::Num(0))
        }
    }
}

} // verus!
