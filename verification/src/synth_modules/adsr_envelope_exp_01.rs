//! An exponential attack-decay-sustain-release envelope.
//!
//! In each tick the level covers a share of the way to a target. The attack
//! aims above one, so that the curve is still rising when it reaches one;
//! decay and release aim at the sustain level and at zero, and take their
//! configured time to come within 1/64 of the target.
use vstd::prelude::*;
use crate::fixed::{fx_sub, rate, share, rate_spec, sat, share_spec, ONE};
use crate::node::{Poll, SignalCtx};
use crate::synth_modules::asr_envelope_lin_01::{unit, unit_spec};
use crate::value::Value;

verus! {

/// The level that the attack aims at: 1.5.
pub const ATTACK_ASYMPTOTE: i64 = 6442450944;

/// The natural logarithm of 3: the attack covers the way from zero to one,
/// two thirds of the way to its target, in the attack time.
pub const ATTACK_GRADIENT_FACTOR_NUMERATOR: i64 = 4718503851;

/// The natural logarithm of 64: decay and release come within 1/64 of
/// their target in their time.
pub const DECAY_RELEASE_GRADIENT_FACTOR_NUMERATOR: i64 = 17862266831;

#[derive(Clone, Copy)]
pub struct Props {
    pub gate: usize,
    pub attack_seconds: usize,
    pub decay_seconds: usize,
    pub sustain_level_01: usize,
    pub release_seconds: usize,
}

#[derive(Clone, Copy)]
pub struct Signal {
    pub props: Props,
    pub in_attack: bool,
    pub prev_gate: bool,
    pub current_value: i64,
}

/// How far the level rises in one tick of attack: a share of the way to
/// the level that the attack aims at.
pub open spec fn attack_delta_spec(value: int, seconds: int, sample_rate: int) -> int {
    share_spec(
        rate_spec(ATTACK_GRADIENT_FACTOR_NUMERATOR as int, seconds, sample_rate),
        sat(ATTACK_ASYMPTOTE - value),
    )
}

/// How far the level falls in one tick of decay or sustain: a share of its
/// height above the sustain level, which counts as lying in `[0, 1]`.
pub open spec fn decay_sustain_delta_spec(
    value: int,
    seconds: int,
    sustain: int,
    sample_rate: int,
) -> int {
    share_spec(
        rate_spec(DECAY_RELEASE_GRADIENT_FACTOR_NUMERATOR as int, seconds, sample_rate),
        sat(value - unit_spec(sustain)),
    )
}

/// How far the level falls in one tick of release: a share of the level.
pub open spec fn release_delta_spec(value: int, seconds: int, sample_rate: int) -> int {
    share_spec(
        rate_spec(DECAY_RELEASE_GRADIENT_FACTOR_NUMERATOR as int, seconds, sample_rate),
        value,
    )
}

pub fn attack_delta(value: i64, seconds: i64, sample_rate: u32) -> (r: i64)
    ensures
        r as int == attack_delta_spec(value as int, seconds as int, sample_rate as int),
        r >= 0,
        value <= ONE ==> r >= 1,
{
    let k = rate(ATTACK_GRADIENT_FACTOR_NUMERATOR, seconds, sample_rate);
    share(k, fx_sub(ATTACK_ASYMPTOTE, value))
}

pub fn decay_sustain_delta(value: i64, seconds: i64, sustain: i64, sample_rate: u32) -> (r: i64)
    ensures
        r as int == decay_sustain_delta_spec(
            value as int,
            seconds as int,
            sustain as int,
            sample_rate as int,
        ),
        r >= 0,
        value >= 0 ==> r <= value,
        0 <= value <= ONE && value > unit_spec(sustain as int) ==> 1 <= r <= value - unit_spec(
            sustain as int,
        ),
{
    let k = rate(DECAY_RELEASE_GRADIENT_FACTOR_NUMERATOR, seconds, sample_rate);
    share(k, fx_sub(value, unit(sustain as i128)))
}

pub fn release_delta(value: i64, seconds: i64, sample_rate: u32) -> (r: i64)
    ensures
        r as int == release_delta_spec(value as int, seconds as int, sample_rate as int),
        r >= 0,
        value > 0 ==> 1 <= r <= value,
{
    let k = rate(DECAY_RELEASE_GRADIENT_FACTOR_NUMERATOR, seconds, sample_rate);
    share(k, value)
}

impl Signal {
    pub fn new(props: Props) -> (s: Self)
        ensures
            s == (Signal { props, in_attack: false, prev_gate: false, current_value: 0 }),
    {
        Signal { props, in_attack: false, prev_gate: false, current_value: 0 }
    }

    /// Whether a tick with this gate is one of attack: the level is not at
    /// the top, the `gate` is held, and it was either pressed in this tick or
    /// the attack was under way.
    pub open spec fn attacking_spec(self, gate: bool) -> bool {
        self.current_value != ONE && gate && (self.in_attack || !self.prev_gate)
    }

    /// One poll: the `gate`; then the attack time in a tick of attack, the
    /// decay time and the sustain level in another tick with the `gate` held,
    /// the release time while the `gate` is not held; then the new level.
    pub open spec fn poll_spec(self, got: Seq<Value>, ctx: SignalCtx) -> (Self, Poll) {
        let rate = ctx.sample_rate as int;
        let value = self.current_value as int;
        if got.len() == 0 {
            (self, Poll::Sample(self.props.gate))
        } else {
            let gate = got[0].bool_spec();
            let in_attack = self.attacking_spec(gate);
            if gate && in_attack {
                if got.len() == 1 {
                    (self, Poll::Sample(self.props.attack_seconds))
                } else {
                    let next = unit_spec(
                        value + attack_delta_spec(value, got[1].num_spec() as int, rate),
                    ) as i64;
                    (
                        Signal { props: self.props, in_attack, prev_gate: gate, current_value: next },
                        Poll::Ready(Value::Num(next)),
                    )
                }
            } else if gate {
                if got.len() == 1 {
                    (self, Poll::Sample(self.props.decay_seconds))
                } else if got.len() == 2 {
                    (self, Poll::Sample(self.props.sustain_level_01))
                } else {
                    let next = unit_spec(
                        value - decay_sustain_delta_spec(
                            value,
                            got[1].num_spec() as int,
                            got[2].num_spec() as int,
                            rate,
                        ),
                    ) as i64;
                    (
                        Signal { props: self.props, in_attack, prev_gate: gate, current_value: next },
                        Poll::Ready(Value::Num(next)),
                    )
                }
            } else {
                if got.len() == 1 {
                    (self, Poll::Sample(self.props.release_seconds))
                } else {
                    let next = unit_spec(
                        value - release_delta_spec(value, got[1].num_spec() as int, rate),
                    ) as i64;
                    (
                        Signal { props: self.props, in_attack, prev_gate: gate, current_value: next },
                        Poll::Ready(Value::Num(next)),
                    )
                }
            }
        }
    }

    pub fn poll(&mut self, got: &Vec<Value>, ctx: &SignalCtx) -> (p: Poll)
        ensures
            (*final(self), p) == old(self).poll_spec(got@, *ctx),
    {
        if got.len() == 0 {
            return Poll::Sample(self.props.gate);
        }
        let gate = got[0].as_bool();
        let in_attack = self.current_value != ONE && gate && (self.in_attack || !self.prev_gate);
        let next = if gate {
            if in_attack {
                if got.len() == 1 {
                    return Poll::Sample(self.props.attack_seconds);
                }
                let delta = attack_delta(self.current_value, got[1].as_num(), ctx.sample_rate);
                unit(self.current_value as i128 + delta as i128)
            } else {
                if got.len() == 1 {
                    return Poll::Sample(self.props.decay_seconds);
                }
                if got.len() == 2 {
                    return Poll::Sample(self.props.sustain_level_01);
                }
                let delta = decay_sustain_delta(
                    self.current_value,
                    got[1].as_num(),
                    got[2].as_num(),
                    ctx.sample_rate,
                );
                unit(self.current_value as i128 - delta as i128)
            }
        } else {
            if got.len() == 1 {
                return Poll::Sample(self.props.release_seconds);
            }
            let delta = release_delta(self.current_value, got[1].as_num(), ctx.sample_rate);
            unit(self.current_value as i128 - delta as i128)
        };
        self.in_attack = in_attack;
        self.prev_gate = gate;
        self.current_value = next;
        Poll::Ready(Value::Num(next))
    }

    /// Whatever `gate`, the durations and the sustain level, the level after
    /// a tick lies in `[0, 1]` and is the sample. A level in `[0, 1]` keeps
    /// moving: released, it falls in every tick until it is zero; in a tick
    /// of attack it rises until it is one; in a tick of decay it falls
    /// while it is above the sustain level, and not below that level.
    pub proof fn law_bounded(self, got: Seq<Value>, ctx: SignalCtx)
        requires
            self.poll_spec(got, ctx).1 is Ready,
        ensures
            0 <= self.poll_spec(got, ctx).0.current_value <= ONE,
            self.poll_spec(got, ctx).1 == Poll::Ready(
                Value::Num(self.poll_spec(got, ctx).0.current_value),
            ),
            !got[0].bool_spec() && 0 <= self.current_value <= ONE ==> self.poll_spec(
                got,
                ctx,
            ).0.current_value <= self.current_value,
            !got[0].bool_spec() && 0 < self.current_value <= ONE ==> self.poll_spec(
                got,
                ctx,
            ).0.current_value < self.current_value,
            self.attacking_spec(got[0].bool_spec()) && 0 <= self.current_value < ONE
                ==> self.poll_spec(got, ctx).0.current_value > self.current_value,
            got[0].bool_spec() && !self.attacking_spec(got[0].bool_spec()) && 0
                <= self.current_value <= ONE && self.current_value > unit_spec(
                got[2].num_spec() as int,
            ) ==> unit_spec(got[2].num_spec() as int) <= self.poll_spec(got, ctx).0.current_value
                < self.current_value,
    {
    }
}

} // verus!
