//! A linear attack-decay-sustain-release envelope.
use vstd::prelude::*;
use crate::fixed::{fx_max, step, step_spec, ONE};
use crate::node::{Poll, SignalCtx};
use crate::synth_modules::asr_envelope_lin_01::{unit, unit_spec};
use crate::value::Value;

verus! {

#[derive(Clone, Copy)]
pub struct Props {
    pub gate: usize,
    pub attack_seconds: usize,
    pub decay_seconds: usize,
    pub sustain_01: usize,
    pub release_seconds: usize,
}

/// The envelope: its wiring, its level in `[0, 1]`, and whether the attack
/// has reached the top since the `gate` was last pressed.
#[derive(Clone, Copy)]
pub struct Signal {
    pub props: Props,
    pub current_value: i64,
    pub crossed_threshold: bool,
}

/// The stage that an envelope is in.
#[derive(Debug, Clone, Copy, PartialEq, Eq, Structural)]
pub enum Stage {
    Attack,
    Decay,
    Sustain,
    Release,
}

/// The level after one tick of attack: up by one step, at most one.
pub open spec fn attack_spec(value: int, seconds: int, sample_rate: int) -> int {
    unit_spec(value + step_spec(seconds, sample_rate))
}

/// The level after one tick of decay: down by one step, but not below the
/// sustain level, which counts as lying in `[0, 1]`.
pub open spec fn decay_spec(value: int, seconds: int, sustain: int, sample_rate: int) -> int {
    let lowered = unit_spec(value - step_spec(seconds, sample_rate));
    let floor = unit_spec(sustain);
    if lowered >= floor {
        lowered
    } else {
        floor
    }
}

/// The level after one tick of release: down by one step, not below zero.
pub open spec fn release_spec(value: int, seconds: int, sample_rate: int) -> int {
    unit_spec(value - step_spec(seconds, sample_rate))
}

pub fn attack(value: i64, seconds: i64, sample_rate: u32) -> (r: i64)
    ensures
        r as int == attack_spec(value as int, seconds as int, sample_rate as int),
        0 <= r <= ONE,
        0 <= value < ONE ==> r > value,
{
    unit(value as i128 + step(seconds, sample_rate) as i128)
}

pub fn decay(value: i64, seconds: i64, sustain: i64, sample_rate: u32) -> (r: i64)
    ensures
        r as int == decay_spec(value as int, seconds as int, sustain as int, sample_rate as int),
        0 <= r <= ONE,
        0 <= value <= ONE && value > unit_spec(sustain as int) ==> unit_spec(sustain as int) <= r
            < value,
{
    let lowered = unit(value as i128 - step(seconds, sample_rate) as i128);
    fx_max(lowered, unit(sustain as i128))
}

pub fn release(value: i64, seconds: i64, sample_rate: u32) -> (r: i64)
    ensures
        r as int == release_spec(value as int, seconds as int, sample_rate as int),
        0 <= r <= ONE,
        value >= 0 ==> r <= value,
        0 < value <= ONE ==> r < value,
{
    unit(value as i128 - step(seconds, sample_rate) as i128)
}

impl Signal {
    pub fn new(props: Props) -> (s: Self)
        ensures
            s == (Signal { props, current_value: 0, crossed_threshold: false }),
    {
        Signal { props, current_value: 0, crossed_threshold: false }
    }

    /// The stage that a tick with this gate is computed in: release while the
    /// gate is not held; else attack until the level has reached one; then
    /// decay while the level is above the sustain level, and sustain after.
    pub open spec fn stage_spec(self, gate: bool, sustain: int) -> Stage {
        if !gate {
            Stage::Release
        } else if !self.crossed_threshold {
            Stage::Attack
        } else if self.current_value > unit_spec(sustain) {
            Stage::Decay
        } else {
            Stage::Sustain
        }
    }

    pub fn stage(&self, gate: bool, sustain: i64) -> (s: Stage)
        ensures
            s == self.stage_spec(gate, sustain as int),
    {
        if !gate {
            Stage::Release
        } else if !self.crossed_threshold {
            Stage::Attack
        } else if self.current_value > unit(sustain as i128) {
            Stage::Decay
        } else {
            Stage::Sustain
        }
    }

    /// One poll: the `gate`; then, while the `gate` is held, the attack time
    /// until the top has been reached, and the decay time and the sustain
    /// level after that; the release time while the `gate` is not held.
    pub open spec fn poll_spec(self, got: Seq<Value>, ctx: SignalCtx) -> (Self, Poll) {
        let rate = ctx.sample_rate as int;
        if got.len() == 0 {
            (self, Poll::Sample(self.props.gate))
        } else if got[0].bool_spec() {
            if self.crossed_threshold {
                if got.len() == 1 {
                    (self, Poll::Sample(self.props.decay_seconds))
                } else if got.len() == 2 {
                    (self, Poll::Sample(self.props.sustain_01))
                } else {
                    let value = decay_spec(
                        self.current_value as int,
                        got[1].num_spec() as int,
                        got[2].num_spec() as int,
                        rate,
                    ) as i64;
                    (Signal { current_value: value, ..self }, Poll::Ready(Value::Num(value)))
                }
            } else {
                if got.len() == 1 {
                    (self, Poll::Sample(self.props.attack_seconds))
                } else {
                    let value = attack_spec(
                        self.current_value as int,
                        got[1].num_spec() as int,
                        rate,
                    ) as i64;
                    (
                        Signal { current_value: value, crossed_threshold: value == ONE, ..self },
                        Poll::Ready(Value::Num(value)),
                    )
                }
            }
        } else {
            if got.len() == 1 {
                (self, Poll::Sample(self.props.release_seconds))
            } else {
                let value = release_spec(
                    self.current_value as int,
                    got[1].num_spec() as int,
                    rate,
                ) as i64;
                (
                    Signal { current_value: value, crossed_threshold: false, ..self },
                    Poll::Ready(Value::Num(value)),
                )
            }
        }
    }

    pub fn poll(&mut self, got: &Vec<Value>, ctx: &SignalCtx) -> (p: Poll)
        ensures
            (*final(self), p) == old(self).poll_spec(got@, *ctx),
    {
        if got.len() == 0 {
            return Poll::Sample(self.props.gate);
        }
        if got[0].as_bool() {
            if self.crossed_threshold {
                if got.len() == 1 {
                    return Poll::Sample(self.props.decay_seconds);
                }
                if got.len() == 2 {
                    return Poll::Sample(self.props.sustain_01);
                }
                self.current_value = decay(
                    self.current_value,
                    got[1].as_num(),
                    got[2].as_num(),
                    ctx.sample_rate,
                );
            } else {
                if got.len() == 1 {
                    return Poll::Sample(self.props.attack_seconds);
                }
                self.current_value = attack(self.current_value, got[1].as_num(), ctx.sample_rate);
                self.crossed_threshold = self.current_value == ONE;
            }
        } else {
            if got.len() == 1 {
                return Poll::Sample(self.props.release_seconds);
            }
            self.crossed_threshold = false;
            self.current_value = release(self.current_value, got[1].as_num(), ctx.sample_rate);
        }
        Poll::Ready(Value::Num(self.current_value))
    }

    /// Whatever `gate`, the durations and the sustain level, the level after
    /// a tick lies in `[0, 1]` and is the sample. A level in that range
    /// keeps moving: released, it falls in every tick until it is zero; in
    /// attack it rises in every tick until it is one; after that it falls
    /// while it is above the sustain level, and not below that level.
    pub proof fn law_bounded(self, got: Seq<Value>, ctx: SignalCtx)
        requires
            self.poll_spec(got, ctx).1 is Ready,
        ensures
            0 <= self.poll_spec(got, ctx).0.current_value <= ONE,
            self.poll_spec(got, ctx).1 == Poll::Ready(
                Value::Num(self.poll_spec(got, ctx).0.current_value),
            ),
            !got[0].bool_spec() && self.current_value >= 0 ==> self.poll_spec(
                got,
                ctx,
            ).0.current_value <= self.current_value,
            !got[0].bool_spec() && 0 < self.current_value <= ONE ==> self.poll_spec(
                got,
                ctx,
            ).0.current_value < self.current_value,
            got[0].bool_spec() && !self.crossed_threshold && 0 <= self.current_value < ONE
                ==> self.poll_spec(got, ctx).0.current_value > self.current_value,
            got[0].bool_spec() && self.crossed_threshold && 0 <= self.current_value <= ONE
                && self.current_value > unit_spec(got[2].num_spec() as int) ==> unit_spec(
                got[2].num_spec() as int,
            ) <= self.poll_spec(got, ctx).0.current_value < self.current_value,
    {
    }
}

} // verus!
