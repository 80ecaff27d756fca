//! The pacing between the thread that computes samples and the audio
//! callback that consumes them.
//!
//! The producer counts what it has produced in `source_cursor`; the callback
//! counts what it has played in a sink cursor. Whenever the producer runs,
//! it reads the sink cursor and produces what is missing up to `padding`
//! samples ahead of it.
use vstd::prelude::*;

verus! {

/// The producer's side of the bridge to an audio device.
pub struct SamplePlayer {
    pub sample_rate: u32,
    pub channels: u16,
    pub buffer_padding: u64,
    pub source_cursor: u64,
}

/// The padding that a player starts with: a twentieth of a second.
pub open spec fn default_padding_spec(sample_rate: u32) -> u64 {
    (sample_rate / 20) as u64
}

/// The cursor that the producer aims at: `padding` samples ahead of the
/// sink, or the largest cursor there is.
pub open spec fn target_spec(sink_cursor: u64, padding: u64) -> u64 {
    if sink_cursor + padding > u64::MAX {
        u64::MAX
    } else {
        (sink_cursor + padding) as u64
    }
}

impl SamplePlayer {
    /// A player for a device with this sample rate and this many channels,
    /// which has produced nothing yet.
    pub fn new(sample_rate: u32, channels: u16) -> (p: Self)
        ensures
            p == (SamplePlayer {
                sample_rate,
                channels,
                buffer_padding: default_padding_spec(sample_rate),
                source_cursor: 0,
            }),
    {
        SamplePlayer {
            sample_rate,
            channels,
            buffer_padding: (sample_rate / 20) as u64,
            source_cursor: 0,
        }
    }

    pub fn sample_rate(&self) -> (r: u32)
        ensures
            r == self.sample_rate,
    {
        self.sample_rate
    }

    /// The number of samples to stay ahead of the device. More of it means
    /// more latency and less risk that the device runs dry.
    pub fn buffer_padding_mut(&mut self) -> (p: &mut u64)
        ensures
            *p == old(self).buffer_padding,
            *final(self) == (SamplePlayer { buffer_padding: *final(p), ..*old(self) }),
    {
        &mut self.buffer_padding
    }

    /// How many samples are missing up to the target; zero where the
    /// producer is at the target or beyond it.
    pub open spec fn samples_behind_spec(self, sink_cursor: u64) -> u64 {
        let target = target_spec(sink_cursor, self.buffer_padding);
        if target > self.source_cursor {
            (target - self.source_cursor) as u64
        } else {
            0
        }
    }

    pub fn samples_behind(&self, sink_cursor: u64) -> (n: u64)
        ensures
            n == self.samples_behind_spec(sink_cursor),
    {
        let target_source_cursor = if sink_cursor > u64::MAX - self.buffer_padding {
            u64::MAX
        } else {
            sink_cursor + self.buffer_padding
        };
        if target_source_cursor > self.source_cursor {
            target_source_cursor - self.source_cursor
        } else {
            0
        }
    }

    /// Counts one sample as produced.
    pub fn play_sample(&mut self)
        requires
            old(self).source_cursor < u64::MAX,
        ensures
            *final(self) == (SamplePlayer {
                source_cursor: (old(self).source_cursor + 1) as u64,
                ..*old(self)
            }),
    {
        self.source_cursor += 1;
    }

    /// Counts as produced what is missing up to the target, and says how
    /// many samples that is: the samples that the caller now produces and
    /// sends, one for each frame of the device.
    pub fn play_stream(&mut self, sink_cursor: u64) -> (n: u64)
        ensures
            n == old(self).samples_behind_spec(sink_cursor),
            *final(self) == (SamplePlayer {
                source_cursor: (old(self).source_cursor + n) as u64,
                ..*old(self)
            }),
            old(self).source_cursor <= target_spec(sink_cursor, old(self).buffer_padding)
                ==> final(self).source_cursor == target_spec(
                sink_cursor,
                old(self).buffer_padding,
            ),
    {
        let n = self.samples_behind(sink_cursor);
        self.source_cursor = self.source_cursor + n;
        n
    }

    /// The producer arrives at the target and never gets beyond it: what is
    /// due takes a producer that is not yet there exactly to the target,
    /// whatever the number of channels, and a producer within the padding
    /// of the sink cursor is still within it afterwards. A producer at the
    /// target or beyond it is due nothing.
    pub proof fn law_pacing(self, sink_cursor: u64)
        ensures
            self.source_cursor + self.samples_behind_spec(sink_cursor) <= u64::MAX,
            self.source_cursor <= target_spec(sink_cursor, self.buffer_padding)
                ==> self.source_cursor + self.samples_behind_spec(sink_cursor) == target_spec(
                sink_cursor,
                self.buffer_padding,
            ),
            self.source_cursor >= target_spec(sink_cursor, self.buffer_padding)
                ==> self.samples_behind_spec(sink_cursor) == 0,
            self.source_cursor <= sink_cursor + self.buffer_padding ==> self.source_cursor
                + self.samples_behind_spec(sink_cursor) <= sink_cursor + self.buffer_padding,
    {
    }
}

/// How many frames a callback can fill: one for each `channels` slots of
/// its buffer, the last of them possibly short.
pub open spec fn frames_spec(slots: int, channels: int) -> int {
    if channels <= 0 {
        0
    } else {
        (slots + channels - 1) / channels
    }
}

/// How many frames a buffer of `slots` slots holds for a device of
/// `channels` channels.
pub fn frames(slots: usize, channels: u16) -> (n: usize)
    ensures
        n == frames_spec(slots as int, channels as int),
{
    if channels == 0 {
        0
    } else {
        let c = channels as usize;
        let whole = slots / c;
        proof {
            vstd::arithmetic::div_mod::lemma_fundamental_div_mod(slots as int, c as int);
            vstd::arithmetic::div_mod::lemma_mod_bound(slots as int, c as int);
            let q = slots as int / (c as int);
            let r = slots as int % (c as int);
            vstd::arithmetic::div_mod::lemma_div_pos_is_pos(slots as int, c as int);
            if r == 0 {
                assert((slots + c - 1) == q * (c as int) + (c - 1)) by (nonlinear_arith)
                    requires
                        slots as int == (c as int) * q + r,
                        r == 0,
                ;
                vstd::arithmetic::div_mod::lemma_fundamental_div_mod_converse(
                    slots + c - 1,
                    c as int,
                    q,
                    c - 1,
                );
            } else {
                assert((slots + c - 1) == (q + 1) * (c as int) + (r - 1)) by (nonlinear_arith)
                    requires
                        slots as int == (c as int) * q + r,
                ;
                assert(q < slots) by (nonlinear_arith)
                    requires
                        slots as int == (c as int) * q + r,
                        r > 0,
                        c >= 1,
                        q >= 0,
                ;
                vstd::arithmetic::div_mod::lemma_fundamental_div_mod_converse(
                    slots + c - 1,
                    c as int,
                    q + 1,
                    r - 1,
                );
            }
        }
        if slots % c == 0 {
            whole
        } else {
            whole + 1
        }
    }
}

/// How many frames a callback fills: as many as its buffer has, or as many
/// samples as have arrived, whichever is less.
pub open spec fn written_spec(slots: int, channels: int, arrived: int) -> int {
    let frames = frames_spec(slots, channels);
    if arrived < frames {
        arrived
    } else {
        frames
    }
}

/// The output buffer after a callback: every slot of a filled frame holds
/// that frame's sample, and every other slot holds what it held before.
pub open spec fn filled_spec(data: Seq<i64>, channels: int, input: Seq<i64>) -> Seq<i64> {
    Seq::new(
        data.len(),
        |i: int|
            if channels > 0 && i / channels < written_spec(data.len() as int, channels, input.len() as int) {
                input[i / channels]
            } else {
                data[i]
            },
    )
}

/// The work of the audio callback: writes the samples that have arrived
/// into the device's buffer, one sample to all channels of a frame, and says
/// how many frames it filled, which is how far the sink cursor moves. Where
/// samples run out, the remaining slots are left as they are.
pub fn write_frames(data: &mut Vec<i64>, channels: u16, input: &Vec<i64>) -> (written: usize)
    ensures
        written == written_spec(old(data)@.len() as int, channels as int, input@.len() as int),
        final(data)@ == filled_spec(old(data)@, channels as int, input@),
{
    if channels == 0 {
        assert(data@ =~= filled_spec(data@, channels as int, input@));
        return 0;
    }
    let c = channels as usize;
    let len = data.len();
    let ghost goal = filled_spec(old(data)@, channels as int, input@);
    let ghost total = written_spec(len as int, c as int, input@.len() as int);
    let mut frame: usize = 0;
    let mut slot: usize = 0;
    proof {
        vstd::arithmetic::div_mod::lemma_div_basics(c as int);
    }
    while slot < len && frame < input.len()
        invariant
            c == channels,
            c > 0,
            len == data@.len(),
            len == old(data)@.len(),
            slot <= len,
            frame <= input@.len(),
            slot == frame * c || (slot == len && frame * c >= len && (frame - 1) * c < len),
            frame <= total,
            total == written_spec(len as int, c as int, input@.len() as int),
            goal == filled_spec(old(data)@, channels as int, input@),
            forall|i: int| 0 <= i < slot ==> data@[i] == goal[i],
            forall|i: int| slot <= i < len ==> data@[i] == old(data)@[i],
        decreases len - slot,
    {
        let sample = input[frame];
        let ghost start = slot;
        proof {
            lemma_frame_in_range(len as int, c as int, frame as int, input@.len() as int);
        }
        let mut k: usize = 0;
        while k < c && slot < len
            invariant
                c > 0,
                k <= c,
                len == data@.len(),
                len == old(data)@.len(),
                start == frame * c,
                slot == start + k,
                slot <= len,
                frame < input@.len(),
                frame < total,
                sample == input@[frame as int],
                total == written_spec(len as int, c as int, input@.len() as int),
                goal == filled_spec(old(data)@, channels as int, input@),
                c == channels,
                forall|i: int| 0 <= i < slot ==> data@[i] == goal[i],
                forall|i: int| slot <= i < len ==> data@[i] == old(data)@[i],
            decreases c - k,
        {
            proof {
                lemma_slot_frame(slot as int, c as int, frame as int, k as int);
            }
            data[slot] = sample;
            slot += 1;
            k += 1;
        }
        proof {
            assert((frame + 1) * c == frame * c + c) by (nonlinear_arith);
        }
        frame += 1;
    }
    proof {
        lemma_written(len as int, c as int, input@.len() as int, slot as int, frame as int);
        assert forall|i: int| slot <= i < len implies data@[i] == goal[i] by {
            if slot < len {
                lemma_beyond(len as int, c as int, frame as int, i);
            }
        }
        assert(data@ =~= goal);
    }
    frame
}

proof fn lemma_frame_in_range(len: int, c: int, frame: int, arrived: int)
    requires
        c > 0,
        0 <= frame < arrived,
        frame * c < len,
    ensures
        frame < written_spec(len, c, arrived),
{
    assert(frame < (len + c - 1) / c) by (nonlinear_arith)
        requires c > 0, frame >= 0, frame * c < len;
}

proof fn lemma_slot_frame(slot: int, c: int, frame: int, k: int)
    requires
        c > 0,
        0 <= k < c,
        0 <= frame,
        slot == frame * c + k,
    ensures
        slot / c == frame,
{
    vstd::arithmetic::div_mod::lemma_fundamental_div_mod_converse(slot, c, frame, k);
}

proof fn lemma_written(len: int, c: int, arrived: int, slot: int, frame: int)
    requires
        c > 0,
        0 <= slot <= len,
        0 <= frame <= arrived,
        frame <= written_spec(len, c, arrived),
        slot == frame * c || (slot == len && frame * c >= len && (frame - 1) * c < len),
        !(slot < len && frame < arrived),
    ensures
        frame == written_spec(len, c, arrived),
{
    if slot >= len {
        assert(frame >= (len + c - 1) / c) by (nonlinear_arith)
            requires c > 0, frame >= 0, frame * c >= len, len >= 0;
    }
}

proof fn lemma_beyond(len: int, c: int, frame: int, i: int)
    requires
        c > 0,
        0 <= frame,
        frame * c <= i < len,
    ensures
        i / c >= frame,
{
    assert(i / c >= frame) by (nonlinear_arith)
        requires c > 0, frame >= 0, frame * c <= i;
}

} // verus!
