//! A phase-accumulator oscillator with a selectable waveform.
use vstd::prelude::*;
use crate::fixed::{fx_abs, fx_clamp, next_phase, saturate, wrap_unit, abs_spec, clamp_spec,
    next_phase_spec, sat, wrap_unit_spec, ONE};
use crate::node::{Inputs, Poll, SignalCtx, SignalTrait};
use crate::value::{nth_spec, Value, Waveform};

verus! {

/// The nodes that an oscillator is wired to.
pub struct Props {
    pub waveform: usize,
    pub frequency_hz: usize,
    pub reset_trigger: usize,
    pub reset_offset_01: usize,
    pub square_wave_pulse_width_01: usize,
}

/// An oscillator: its wiring, its phase in `[0, 1)` once it has one, and the
/// signal that shapes a phase into a sine.
pub struct Signal<S> {
    pub props: Props,
    pub state: Option<i64>,
    pub sine: S,
}

/// The sawtooth at `phase`: from minus one up to one.
pub open spec fn saw_spec(phase: int) -> int {
    sat(2 * phase - ONE)
}

/// The triangle at `phase`: one at the ends of the cycle, minus one in the middle.
pub open spec fn triangle_spec(phase: int) -> int {
    sat(2 * abs_spec(saw_spec(phase)) - ONE)
}

/// The square at `phase`: minus one below the pulse width, else one.
pub open spec fn square_spec(phase: int, pulse_width: int) -> int {
    if phase < pulse_width {
        -ONE
    } else {
        ONE as int
    }
}

pub fn saw(phase: i64) -> (r: i64)
    ensures
        r as int == saw_spec(phase as int),
        0 <= phase < ONE ==> -ONE <= r < ONE && r as int == 2 * phase - ONE,
{
    saturate(2 * (phase as i128) - ONE as i128)
}

pub fn triangle(phase: i64) -> (r: i64)
    ensures
        r as int == triangle_spec(phase as int),
        0 <= phase < ONE ==> -ONE <= r <= ONE,
{
    let s = fx_abs(saw(phase));
    saturate(2 * (s as i128) - ONE as i128)
}

pub fn square(phase: i64, pulse_width: i64) -> (r: i64)
    ensures
        r as int == square_spec(phase as int, pulse_width as int),
        r == ONE || r == -ONE,
{
    if phase < pulse_width {
        -ONE
    } else {
        ONE
    }
}

impl<S: SignalTrait> Signal<S> {
    pub fn new(props: Props, sine: S) -> (s: Self)
        ensures
            s == (Signal { props, state: None, sine }),
    {
        Signal { props, state: None, sine }
    }

    /// How many values the oscillator takes in before the reset trigger: the
    /// reset offset, to start from, where it has no phase yet.
    pub open spec fn base(self) -> int {
        if self.state is None {
            1
        } else {
            0
        }
    }

    /// The phase in this tick, where `got` holds the reset trigger and, after
    /// it, the reset offset or the frequency.
    pub open spec fn phase_spec(self, got: Seq<Value>, ctx: SignalCtx) -> int {
        let base = self.base();
        let start = match self.state {
            None => wrap_unit_spec(nth_spec(got, 0).num_spec() as int),
            Some(phase) => phase as int,
        };
        if nth_spec(got, base).bool_spec() {
            wrap_unit_spec(nth_spec(got, base + 1).num_spec() as int)
        } else {
            next_phase_spec(start, nth_spec(got, base + 1).num_spec() as int, ctx.sample_rate as int)
        }
    }

    /// What the sine shaper is asked: the phase alone.
    pub open spec fn sine_input(phase: int) -> Seq<Value> {
        seq![Value::Num(phase as i64)]
    }

    /// The sample at `phase`. A sine comes from the shaper, brought into
    /// `[-1, 1]`.
    pub open spec fn shape_spec(self, phase: int, waveform: Waveform, pulse_width: int, ctx: SignalCtx) -> int {
        match waveform {
            Waveform::Saw => saw_spec(phase),
            Waveform::Square => square_spec(phase, pulse_width),
            Waveform::Triangle => triangle_spec(phase),
            Waveform::Sine => clamp_spec(
                self.sine.output(Inputs::of(Self::sine_input(phase)), ctx).num_spec() as int,
                -ONE,
                ONE as int,
            ),
        }
    }

    /// One poll: the reset offset where there is no phase yet, then the reset
    /// trigger, then the reset offset or the frequency, then the waveform,
    /// then the pulse width where the waveform is a square.
    pub open spec fn poll_spec(self, got: Seq<Value>, ctx: SignalCtx) -> (Self, Poll) {
        let base = self.base();
        if got.len() < base {
            (self, Poll::Sample(self.props.reset_offset_01))
        } else if got.len() == base {
            (self, Poll::Sample(self.props.reset_trigger))
        } else if got.len() == base + 1 {
            if got[base].bool_spec() {
                (self, Poll::Sample(self.props.reset_offset_01))
            } else {
                (self, Poll::Sample(self.props.frequency_hz))
            }
        } else if got.len() == base + 2 {
            (self, Poll::Sample(self.props.waveform))
        } else if got.len() == base + 3 && got[base + 2].wave_spec() == Waveform::Square {
            (self, Poll::Sample(self.props.square_wave_pulse_width_01))
        } else {
            let phase = self.phase_spec(got, ctx);
            let waveform = got[base + 2].wave_spec();
            (
                Signal {
                    props: self.props,
                    state: Some(phase as i64),
                    sine: if waveform == Waveform::Sine {
                        self.sine.next(Inputs::of(Self::sine_input(phase)), ctx)
                    } else {
                        self.sine
                    },
                },
                Poll::Ready(
                    Value::Num(
                        self.shape_spec(
                            phase,
                            waveform,
                            nth_spec(got, base + 3).num_spec() as int,
                            ctx,
                        ) as i64,
                    ),
                ),
            )
        }
    }

    pub fn poll(&mut self, got: &Vec<Value>, ctx: &SignalCtx) -> (p: Poll)
        ensures
            (*final(self), p) == old(self).poll_spec(got@, *ctx),
    {
        let base: usize = if self.state.is_none() { 1 } else { 0 };
        if got.len() < base {
            return Poll::Sample(self.props.reset_offset_01);
        }
        if got.len() == base {
            return Poll::Sample(self.props.reset_trigger);
        }
        if got.len() == base + 1 {
            if got[base].as_bool() {
                return Poll::Sample(self.props.reset_offset_01);
            } else {
                return Poll::Sample(self.props.frequency_hz);
            }
        }
        if got.len() == base + 2 {
            return Poll::Sample(self.props.waveform);
        }
        let waveform = got[base + 2].as_wave();
        if got.len() == base + 3 && waveform == Waveform::Square {
            return Poll::Sample(self.props.square_wave_pulse_width_01);
        }
        let start = match self.state {
            None => wrap_unit(got[0].as_num()),
            Some(phase) => phase,
        };
        let phase = if got[base].as_bool() {
            wrap_unit(got[base + 1].as_num())
        } else {
            next_phase(start, got[base + 1].as_num(), ctx.sample_rate)
        };
        self.state = Some(phase);
        let x = match waveform {
            Waveform::Saw => saw(phase),
            Waveform::Square => {
                let pulse_width = if base + 3 < got.len() { got[base + 3].as_num() } else { 0 };
                square(phase, pulse_width)
            },
            Waveform::Triangle => triangle(phase),
            Waveform::Sine => {
                let mut input: Vec<Value> = Vec::new();
                input.push(Value::Num(phase));
                assert(input@ =~= Self::sine_input(phase as int));
                fx_clamp(self.sine.sample(&input, ctx).as_num(), -ONE, ONE)
            },
        };
        Poll::Ready(Value::Num(x))
    }
}

impl<S: SignalTrait> Signal<S> {
    /// Whatever the inputs, the phase stays in `[0, 1)` and the sample of
    /// every waveform lies in `[-1, 1]`; the sample of a square is exactly
    /// minus one or one.
    pub proof fn law_bounded(self, got: Seq<Value>, ctx: SignalCtx)
        requires
            self.poll_spec(got, ctx).1 is Ready,
        ensures
            self.poll_spec(got, ctx).0.state is Some,
            0 <= self.poll_spec(got, ctx).0.state->0 < ONE,
            -ONE <= self.poll_spec(got, ctx).1->Ready_0.num_spec() <= ONE,
            got[self.base() + 2].wave_spec() == Waveform::Square ==> {
                ||| self.poll_spec(got, ctx).1->Ready_0 == Value::Num(ONE)
                ||| self.poll_spec(got, ctx).1->Ready_0 == Value::Num((-ONE) as i64)
            },
    {
        let phase = self.phase_spec(got, ctx);
        vstd::arithmetic::div_mod::lemma_mod_bound(
            nth_spec(got, self.base() + 1).num_spec() as int,
            ONE as int,
        );
        let start = match self.state {
            None => wrap_unit_spec(nth_spec(got, 0).num_spec() as int),
            Some(p) => p as int,
        };
        vstd::arithmetic::div_mod::lemma_mod_bound(start, ONE as int);
        if ctx.sample_rate > 0 {
            vstd::arithmetic::div_mod::lemma_mod_bound(
                sat(
                    start + (nth_spec(got, self.base() + 1).num_spec() as int) / (
                    ctx.sample_rate as int),
                ),
                ONE as int,
            );
        }
        assert(0 <= phase < ONE);
    }

    /// While the reset trigger stays off, the phase that a tick leaves is
    /// the phase before it advanced by the frequency over the sample rate.
    pub proof fn law_advances(self, got: Seq<Value>, ctx: SignalCtx)
        requires
            self.state is Some,
            self.poll_spec(got, ctx).1 is Ready,
            !got[0].bool_spec(),
        ensures
            self.poll_spec(got, ctx).0.state == Some(
                next_phase_spec(
                    self.state->0 as int,
                    got[1].num_spec() as int,
                    ctx.sample_rate as int,
                ) as i64,
            ),
    {
    }
}

} // verus!
