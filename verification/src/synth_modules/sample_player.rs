//! Plays a buffer of samples from the start whenever a trigger fires.
use vstd::prelude::*;
use crate::fixed::{div_floor, lemma_product_bound, saturate, sat, ONE};
use crate::node::{Poll, SignalCtx};
use crate::value::Value;

verus! {

pub struct Props {
    pub data: Vec<i64>,
    pub trigger: usize,
}

/// The player: its samples, its wiring, and the index of the sample that it
/// plays next; at the end of the samples it is silent.
pub struct Signal {
    pub props: Props,
    pub cursor: usize,
}

pub struct SignalView {
    pub data: Seq<i64>,
    pub trigger: usize,
    pub cursor: usize,
}

impl View for Signal {
    type V = SignalView;

    open spec fn view(&self) -> SignalView {
        SignalView { data: self.props.data@, trigger: self.props.trigger, cursor: self.cursor }
    }
}

impl SignalView {
    /// One poll: the trigger, which sets the player back to the start; then
    /// the sample under the cursor, which moves on, or zero at the end.
    pub open spec fn poll_spec(self, got: Seq<Value>, ctx: SignalCtx) -> (Self, Poll) {
        if got.len() == 0 {
            (self, Poll::Sample(self.trigger))
        } else {
            let start = if got[0].bool_spec() {
                0
            } else {
                self.cursor
            };
            if start < self.data.len() {
                (
                    SignalView { cursor: (start + 1) as usize, ..self },
                    Poll::Ready(Value::Num(self.data[start as int])),
                )
            } else {
                (SignalView { cursor: start, ..self }, Poll::Ready(Value::Num(0)))
            }
        }
    }
}

impl Signal {
    /// A player at the end of its samples: silent until the trigger fires.
    pub fn new(props: Props) -> (s: Self)
        ensures
            s@ == (SignalView {
                data: props.data@,
                trigger: props.trigger,
                cursor: props.data@.len() as usize,
            }),
    {
        let cursor = props.data.len();
        Signal { props, cursor }
    }

    pub fn poll(&mut self, got: &Vec<Value>, ctx: &SignalCtx) -> (p: Poll)
        ensures
            (final(self)@, p) == old(self)@.poll_spec(got@, *ctx),
    {
        if got.len() == 0 {
            return Poll::Sample(self.props.trigger);
        }
        let start = if got[0].as_bool() { 0 } else { self.cursor };
        if start < self.props.data.len() {
            self.cursor = start + 1;
            Poll::Ready(Value::Num(self.props.data[start]))
        } else {
            self.cursor = start;
            Poll::Ready(Value::Num(0))
        }
    }
}

/// The magnitude that counts as one for samples of this many bits: two to
/// the power of one less, with the number of bits taken into `1..=32`.
pub open spec fn full_scale_spec(bits_per_sample: u16) -> i64 {
    if bits_per_sample <= 1 {
        1
    } else if bits_per_sample >= 32 {
        0x8000_0000
    } else {
        1i64 << ((bits_per_sample - 1) as u16)
    }
}

pub fn full_scale(bits_per_sample: u16) -> (r: i64)
    ensures
        r == full_scale_spec(bits_per_sample),
        0 < r <= 0x8000_0000,
{
    if bits_per_sample <= 1 {
        1
    } else if bits_per_sample >= 32 {
        0x8000_0000
    } else {
        let shift: u16 = bits_per_sample - 1;
        assert(0 < (1i64 << shift) <= 0x8000_0000) by (bit_vector)
            requires
                0 < shift < 31,
        ;
        1i64 << shift
    }
}

/// The sum of the samples from `start` up to `end`.
pub open spec fn range_sum_spec(data: Seq<i32>, start: int, end: int) -> int
    decreases end - start,
{
    if end <= start {
        0
    } else {
        range_sum_spec(data, start, end - 1) + data[end - 1]
    }
}

/// `a / n` rounded towards zero.
pub open spec fn truncated_spec(a: int, n: int) -> int
    recommends
        n > 0,
{
    if a >= 0 {
        a / n
    } else {
        -((-a) / n)
    }
}

/// Where frame `f` ends in interleaved data of `len` samples.
pub open spec fn frame_end_spec(len: int, channels: int, f: int) -> int {
    if (f + 1) * channels < len {
        (f + 1) * channels
    } else {
        len
    }
}

/// Frame `f` of interleaved data as one fixed-point sample: the mean of its
/// channels, rounded towards zero, over the full scale.
pub open spec fn mono_sample_spec(data: Seq<i32>, channels: int, bits_per_sample: u16, f: int) -> i64 {
    let start = f * channels;
    let end = frame_end_spec(data.len() as int, channels, f);
    let mean = truncated_spec(range_sum_spec(data, start, end), end - start);
    sat((mean * ONE) / (full_scale_spec(bits_per_sample) as int)) as i64
}

/// How many frames interleaved data of `len` samples holds, a short last
/// frame counted.
pub open spec fn frame_count_spec(len: int, channels: int) -> int {
    if channels <= 0 {
        0
    } else {
        (len + channels - 1) / channels
    }
}

/// Interleaved data as fixed-point samples, one for each frame.
pub open spec fn mono_samples_spec(data: Seq<i32>, channels: u16, bits_per_sample: u16) -> Seq<i64> {
    Seq::new(
        frame_count_spec(data.len() as int, channels as int) as nat,
        |f: int| mono_sample_spec(data, channels as int, bits_per_sample, f),
    )
}

/// Turns interleaved integer samples, such as those of an audio file, into
/// the samples of a player: each frame becomes the mean of its channels as
/// a share of the full scale. Data of no channels gives no samples.
pub fn mono_samples(data: &Vec<i32>, channels: u16, bits_per_sample: u16) -> (out: Vec<i64>)
    ensures
        out@ == mono_samples_spec(data@, channels, bits_per_sample),
{
    let mut out: Vec<i64> = Vec::new();
    if channels == 0 {
        assert(out@ =~= mono_samples_spec(data@, channels, bits_per_sample));
        return out;
    }
    let c = channels as usize;
    let len = data.len();
    let scale = full_scale(bits_per_sample);
    let ghost goal = mono_samples_spec(data@, channels, bits_per_sample);
    let mut start: usize = 0;
    while start < len
        invariant
            c == channels,
            c > 0,
            len == data@.len(),
            scale == full_scale_spec(bits_per_sample),
            0 < scale <= 0x8000_0000,
            goal == mono_samples_spec(data@, channels, bits_per_sample),
            start <= len,
            start < len ==> start == out@.len() * c,
            start == len ==> out@.len() * c >= len,
            out@.len() <= goal.len(),
            forall|f: int| 0 <= f < out@.len() ==> out@[f] == goal[f],
        decreases len - start,
    {
        let ghost f = out@.len() as int;
        let end: usize = if len - start > c { start + c } else { len };
        proof {
            assert((f + 1) * c == f * c + c) by (nonlinear_arith);
            assert(f < (len + c - 1) / (c as int)) by (nonlinear_arith)
                requires c > 0, f >= 0, f * c < len;
        }
        let mut acc: i64 = 0;
        let mut i: usize = start;
        while i < end
            invariant
                start <= i <= end <= len,
                end - start <= c,
                c <= 0xffff,
                len == data@.len(),
                acc == range_sum_spec(data@, start as int, i as int),
                -0x8000_0000 * (i - start) <= acc <= 0x8000_0000 * (i - start),
            decreases end - i,
        {
            acc = acc + data[i] as i64;
            i += 1;
        }
        let n = (end - start) as i64;
        let mean: i64 = if acc >= 0 {
            div_floor(acc as i128, n as i128) as i64
        } else {
            proof {
                crate::fixed::lemma_quotient_bound(-(acc as int), n as int);
            }
            -(div_floor(-(acc as i128), n as i128) as i64)
        };
        proof {
            crate::fixed::lemma_quotient_bound(acc as int, n as int);
            lemma_product_bound(mean as int, ONE as int);
        }
        let sample = saturate(div_floor((mean as i128) * (ONE as i128), scale as i128));
        out.push(sample);
        start = end;
    }
    proof {
        let frames = goal.len() as int;
        assert(out@.len() >= (len + c - 1) / (c as int)) by (nonlinear_arith)
            requires c > 0, (out@.len() as int) * c >= len, len >= 0;
        assert(out@ =~= goal);
    }
    out
}

} // verus!
