//! A first-order state-variable filter with low-pass, band-pass and
//! high-pass taps that share one state.
use vstd::prelude::*;
use crate::fixed::{fx_add, fx_mul, fx_sub, mul_spec, sat};
use crate::node::{Poll, SignalCtx};
use crate::value::Value;

verus! {

/// One quantity for each tap of the filter.
#[derive(Debug)]
pub struct Parts<T> {
    pub low_pass: T,
    pub band_pass: T,
    pub high_pass: T,
}

/// One quantity for each input of the filter.
#[derive(Debug)]
pub struct PropsGen<T> {
    pub signal: T,
    pub cutoff_01: T,
    pub resonance_01: T,
}

/// The nodes that the filter is wired to.
pub type Props = PropsGen<usize>;

pub struct Signal {
    pub props: Props,
    pub state: Parts<i64>,
}

/// The three running values one tick later.
pub open spec fn next_parts_spec(parts: Parts<i64>, props: PropsGen<i64>) -> Parts<i64> {
    let low_pass = sat(parts.low_pass + mul_spec(props.cutoff_01 as int, parts.band_pass as int));
    let band_pass = sat(
        sat(props.signal - parts.low_pass) - mul_spec(
            props.resonance_01 as int,
            parts.band_pass as int,
        ),
    );
    let high_pass = sat(sat(props.signal - low_pass) - band_pass);
    Parts { low_pass: low_pass as i64, band_pass: band_pass as i64, high_pass: high_pass as i64 }
}

pub fn next_parts(parts: &Parts<i64>, props: &PropsGen<i64>) -> (next: Parts<i64>)
    ensures
        next == next_parts_spec(*parts, *props),
{
    let low_pass = fx_add(parts.low_pass, fx_mul(props.cutoff_01, parts.band_pass));
    let band_pass = fx_sub(
        fx_sub(props.signal, parts.low_pass),
        fx_mul(props.resonance_01, parts.band_pass),
    );
    let high_pass = fx_sub(fx_sub(props.signal, low_pass), band_pass);
    Parts { low_pass, band_pass, high_pass }
}

impl Signal {
    pub fn new(props: Props) -> (s: Self)
        ensures
            s == (Signal { props, state: Parts { low_pass: 0, band_pass: 0, high_pass: 0 } }),
    {
        Signal { props, state: Parts { low_pass: 0, band_pass: 0, high_pass: 0 } }
    }

    /// One poll: the signal, the cutoff and the resonance, then the three
    /// taps as a triple.
    pub open spec fn poll_spec(self, got: Seq<Value>, ctx: SignalCtx) -> (Self, Poll) {
        if got.len() == 0 {
            (self, Poll::Sample(self.props.signal))
        } else if got.len() == 1 {
            (self, Poll::Sample(self.props.cutoff_01))
        } else if got.len() == 2 {
            (self, Poll::Sample(self.props.resonance_01))
        } else {
            let state = next_parts_spec(
                self.state,
                PropsGen {
                    signal: got[0].num_spec(),
                    cutoff_01: got[1].num_spec(),
                    resonance_01: got[2].num_spec(),
                },
            );
            (
                Signal { props: self.props, state },
                Poll::Ready(Value::Triple(state.low_pass, state.band_pass, state.high_pass)),
            )
        }
    }

    pub fn poll(&mut self, got: &Vec<Value>, ctx: &SignalCtx) -> (p: Poll)
        ensures
            (*final(self), p) == old(self).poll_spec(got@, *ctx),
    {
        if got.len() == 0 {
            return Poll::Sample(self.props.signal);
        }
        if got.len() == 1 {
            return Poll::Sample(self.props.cutoff_01);
        }
        if got.len() == 2 {
            return Poll::Sample(self.props.resonance_01);
        }
        let props = PropsGen {
            signal: got[0].as_num(),
            cutoff_01: got[1].as_num(),
            resonance_01: got[2].as_num(),
        };
        self.state = next_parts(&self.state, &props);
        Poll::Ready(Value::Triple(self.state.low_pass, self.state.band_pass, self.state.high_pass))
    }
}

} // verus!
