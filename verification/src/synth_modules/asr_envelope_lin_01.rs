//! A linear attack-release envelope for short percussive gates.
use vstd::prelude::*;
use crate::fixed::{step, clamp_spec, step_spec, ONE};
use crate::node::{Poll, SignalCtx};
use crate::value::Value;

verus! {

#[derive(Clone, Copy)]
pub struct Props {
    pub gate: usize,
    pub attack_seconds: usize,
    pub release_seconds: usize,
}

/// The envelope: its wiring and its level in `[0, 1]`.
#[derive(Clone, Copy)]
pub struct Signal {
    pub props: Props,
    pub current_value: i64,
}

/// `x` brought into `[0, 1]`.
pub open spec fn unit_spec(x: int) -> int {
    clamp_spec(x, 0, ONE as int)
}

pub fn unit(x: i128) -> (r: i64)
    ensures
        r as int == unit_spec(x as int),
        0 <= r <= ONE,
{
    if x < 0 {
        0
    } else if x > ONE as i128 {
        ONE
    } else {
        x as i64
    }
}

/// The level one tick later: up by one step of the attack while the `gate` is
/// held, down by one step of the release while it is not, and kept in `[0, 1]`.
pub open spec fn advance_spec(value: int, gate: bool, seconds: int, sample_rate: int) -> int {
    let step = step_spec(seconds, sample_rate);
    if gate {
        unit_spec(value + step)
    } else {
        unit_spec(value - step)
    }
}

pub fn advance(value: i64, gate: bool, seconds: i64, sample_rate: u32) -> (r: i64)
    ensures
        r as int == advance_spec(value as int, gate, seconds as int, sample_rate as int),
        0 <= r <= ONE,
        !gate && value >= 0 ==> r <= value,
        gate && value <= ONE ==> r >= value,
        !gate && 0 < value <= ONE ==> r < value,
        gate && 0 <= value < ONE ==> r > value,
{
    let step = step(seconds, sample_rate);
    if gate {
        unit(value as i128 + step as i128)
    } else {
        unit(value as i128 - step as i128)
    }
}

impl Signal {
    pub fn new(props: Props) -> (s: Self)
        ensures
            s == (Signal { props, current_value: 0 }),
    {
        Signal { props, current_value: 0 }
    }

    /// One poll: the `gate`, then the attack time while the `gate` is held and
    /// the release time while it is not, then the new level.
    pub open spec fn poll_spec(self, got: Seq<Value>, ctx: SignalCtx) -> (Self, Poll) {
        if got.len() == 0 {
            (self, Poll::Sample(self.props.gate))
        } else if got.len() == 1 {
            if got[0].bool_spec() {
                (self, Poll::Sample(self.props.attack_seconds))
            } else {
                (self, Poll::Sample(self.props.release_seconds))
            }
        } else {
            let value = advance_spec(
                self.current_value as int,
                got[0].bool_spec(),
                got[1].num_spec() as int,
                ctx.sample_rate as int,
            ) as i64;
            (Signal { props: self.props, current_value: value }, Poll::Ready(Value::Num(value)))
        }
    }

    pub fn poll(&mut self, got: &Vec<Value>, ctx: &SignalCtx) -> (p: Poll)
        ensures
            (*final(self), p) == old(self).poll_spec(got@, *ctx),
    {
        if got.len() == 0 {
            return Poll::Sample(self.props.gate);
        }
        let gate = got[0].as_bool();
        if got.len() == 1 {
            if gate {
                return Poll::Sample(self.props.attack_seconds);
            } else {
                return Poll::Sample(self.props.release_seconds);
            }
        }
        self.current_value = advance(self.current_value, gate, got[1].as_num(), ctx.sample_rate);
        Poll::Ready(Value::Num(self.current_value))
    }

    /// Whatever `gate` and the durations, the level after a tick lies in
    /// `[0, 1]`. A level in that range keeps moving: released, it falls in
    /// every tick until it is zero; held, it rises in every tick until it
    /// is one.
    pub proof fn law_bounded(self, got: Seq<Value>, ctx: SignalCtx)
        requires
            self.poll_spec(got, ctx).1 is Ready,
        ensures
            0 <= self.poll_spec(got, ctx).0.current_value <= ONE,
            self.poll_spec(got, ctx).1 == Poll::Ready(
                Value::Num(self.poll_spec(got, ctx).0.current_value),
            ),
            !got[0].bool_spec() && self.current_value >= 0 ==> self.poll_spec(
                got,
                ctx,
            ).0.current_value <= self.current_value,
            !got[0].bool_spec() && 0 < self.current_value <= ONE ==> self.poll_spec(
                got,
                ctx,
            ).0.current_value < self.current_value,
            got[0].bool_spec() && 0 <= self.current_value < ONE ==> self.poll_spec(
                got,
                ctx,
            ).0.current_value > self.current_value,
    {
    }
}

} // verus!
