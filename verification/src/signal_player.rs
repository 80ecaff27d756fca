//! The driver that pulls samples out of a graph at the pace of an audio device.
use vstd::prelude::*;
use crate::backend::{default_padding_spec, SamplePlayer};
use crate::graph::{Graph, GraphView};
use crate::node::{SignalCtx, SignalTrait};
use crate::noise::{seeded_stream, NoiseSource};
use crate::signal::Sfix;

verus! {

/// Where a player stands: the tick that the graph is sampled in next, the
/// place of the next device sample within its group of `downsample` samples,
/// and the sample that is held for the rest of the group.
#[derive(Debug, Clone, Copy, PartialEq, Eq, Structural)]
pub struct Progress {
    pub sample_index: u64,
    pub position: u32,
    pub held: i64,
}

/// A player of one signal of a graph.
///
/// With a `downsample` of `n` above one, the graph is sampled for every
/// `n`-th device sample only, at a sample rate of one `n`-th of the device's,
/// and each of its samples is played `n` times.
pub struct SignalPlayer {
    pub sample_player: SamplePlayer,
    pub downsample: u32,
    pub progress: Progress,
    pub recent_samples: Vec<i64>,
    pub noise: NoiseSource,
}

/// The factor in effect: at least one.
pub open spec fn factor_spec(downsample: u32) -> u32 {
    if downsample == 0 {
        1
    } else {
        downsample
    }
}

/// The sample rate that the graph is sampled at.
pub open spec fn graph_rate_spec(sample_rate: u32, downsample: u32) -> u32 {
    sample_rate / factor_spec(downsample)
}

/// The context of the next tick of the graph.
pub open spec fn ctx_spec(progress: Progress, sample_rate: u32, downsample: u32) -> SignalCtx {
    SignalCtx {
        sample_index: progress.sample_index,
        sample_rate: graph_rate_spec(sample_rate, downsample),
    }
}

/// Whether the next device sample is computed from the graph.
pub open spec fn computes_spec(progress: Progress, downsample: u32) -> bool {
    progress.position % factor_spec(downsample) == 0
}

/// The graph after the next device sample: where the sample is computed,
/// the noise cells are refilled from `draws` and the signal is sampled.
pub open spec fn graph_after_spec<S: SignalTrait>(
    progress: Progress,
    sample_rate: u32,
    downsample: u32,
    g: GraphView<S>,
    id: usize,
    draws: Seq<u32>,
) -> GraphView<S> {
    if computes_spec(progress, downsample) {
        g.with_noise(draws, g.refillable(draws)).eval(
            id as int,
            ctx_spec(progress, sample_rate, downsample),
        ).0
    } else {
        g
    }
}

/// The player's progress after the next device sample. The `held` of the
/// result is the device sample.
pub open spec fn progress_after_spec<S: SignalTrait>(
    progress: Progress,
    sample_rate: u32,
    downsample: u32,
    g: GraphView<S>,
    id: usize,
    draws: Seq<u32>,
) -> Progress {
    let position = ((progress.position % factor_spec(downsample) + 1) % (factor_spec(
        downsample,
    ) as int)) as u32;
    if computes_spec(progress, downsample) {
        Progress {
            sample_index: if progress.sample_index == u64::MAX {
                u64::MAX
            } else {
                (progress.sample_index + 1) as u64
            },
            position,
            held: g.with_noise(draws, g.refillable(draws)).eval(
                id as int,
                ctx_spec(progress, sample_rate, downsample),
            ).1.num_spec(),
        }
    } else {
        Progress { position, ..progress }
    }
}

/// The numbers drawn for the noise cells before the next device sample:
/// where the sample is computed from the graph, one for each noise cell,
/// taken from `stream` after the `used` numbers that were drawn before; else
/// none.
pub open spec fn draws_spec<S: SignalTrait>(
    progress: Progress,
    downsample: u32,
    g: GraphView<S>,
    stream: Map<nat, u32>,
    used: nat,
) -> Seq<u32> {
    if computes_spec(progress, downsample) {
        Seq::new(g.noise.len(), |j: int| stream[(used + j) as nat])
    } else {
        Seq::empty()
    }
}

/// What a run of `n` device samples comes to.
pub struct Played<S> {
    /// Where the player stands afterwards.
    pub progress: Progress,
    /// The graph afterwards.
    pub graph: GraphView<S>,
    /// The device samples, in order.
    pub sent: Seq<i64>,
    /// How many numbers were drawn from the noise source.
    pub used: nat,
}

/// The run of `n` device samples of node `id`, where `stream` holds the
/// numbers that the noise source has yet to yield.
pub open spec fn played_spec<S: SignalTrait>(
    progress: Progress,
    sample_rate: u32,
    downsample: u32,
    g: GraphView<S>,
    id: usize,
    stream: Map<nat, u32>,
    n: nat,
) -> Played<S>
    decreases n,
{
    if n == 0 {
        Played { progress, graph: g, sent: Seq::empty(), used: 0 }
    } else {
        let before = played_spec(progress, sample_rate, downsample, g, id, stream, (n - 1) as nat);
        let draws = draws_spec(before.progress, downsample, before.graph, stream, before.used);
        let after = progress_after_spec(
            before.progress,
            sample_rate,
            downsample,
            before.graph,
            id,
            draws,
        );
        Played {
            progress: after,
            graph: graph_after_spec(
                before.progress,
                sample_rate,
                downsample,
                before.graph,
                id,
                draws,
            ),
            sent: before.sent.push(after.held),
            used: before.used + draws.len(),
        }
    }
}

impl SignalPlayer {
    /// A player for a device with this sample rate and this many channels,
    /// whose noise starts from `seed`.
    pub fn new(sample_rate: u32, channels: u16, downsample: u32, seed: [u8; 16]) -> (p: Self)
        ensures
            p.sample_player == (SamplePlayer {
                sample_rate,
                channels,
                buffer_padding: default_padding_spec(sample_rate),
                source_cursor: 0,
            }),
            p.downsample == downsample,
            p.progress == (Progress { sample_index: 0, position: 0, held: 0 }),
            p.recent_samples@.len() == 0,
            p.noise.stream() == seeded_stream(seed@),
    {
        SignalPlayer {
            sample_player: SamplePlayer::new(sample_rate, channels),
            downsample,
            progress: Progress { sample_index: 0, position: 0, held: 0 },
            recent_samples: Vec::new(),
            noise: NoiseSource::new(seed),
        }
    }

    /// The sample rate that the graph is sampled at.
    pub fn sample_rate(&self) -> (r: u32)
        ensures
            r == graph_rate_spec(self.sample_player.sample_rate, self.downsample),
    {
        let factor = if self.downsample == 0 { 1 } else { self.downsample };
        self.sample_player.sample_rate() / factor
    }

    /// Whether the next device sample is computed from the graph.
    pub fn computes(&self) -> (b: bool)
        ensures
            b == computes_spec(self.progress, self.downsample),
    {
        let factor = if self.downsample == 0 { 1 } else { self.downsample };
        self.progress.position % factor == 0
    }

    /// The next device sample, where `draws` are the numbers that refill the
    /// graph's noise cells if the sample is computed.
    pub fn next_sample<S: SignalTrait>(
        &mut self,
        graph: &mut Graph<S>,
        buffered_signal: &Sfix,
        draws: &Vec<u32>,
    ) -> (sample: i64)
        ensures
            final(self).progress == progress_after_spec(
                old(self).progress,
                old(self).sample_player.sample_rate,
                old(self).downsample,
                old(graph)@,
                buffered_signal.id(),
                draws@,
            ),
            final(graph)@ == graph_after_spec(
                old(self).progress,
                old(self).sample_player.sample_rate,
                old(self).downsample,
                old(graph)@,
                buffered_signal.id(),
                draws@,
            ),
            sample == final(self).progress.held,
            final(self).sample_player == old(self).sample_player,
            final(self).downsample == old(self).downsample,
            final(self).recent_samples == old(self).recent_samples,
            final(self).noise == old(self).noise,
            final(graph)@.same_shape(old(graph)@),
    {
        let factor = if self.downsample == 0 { 1 } else { self.downsample };
        let place = self.progress.position % factor;
        if place == 0 {
            let ctx = SignalCtx {
                sample_index: self.progress.sample_index,
                sample_rate: self.sample_rate(),
            };
            graph.set_noise(draws);
            proof {
                graph@.lemma_eval_frame(buffered_signal.id() as int, ctx);
            }
            let sample = buffered_signal.sample(graph, &ctx);
            self.progress.held = sample;
            if self.progress.sample_index < u64::MAX {
                self.progress.sample_index += 1;
            }
        }
        self.progress.position = if place + 1 == factor { 0 } else { place + 1 };
        proof {
            if place + 1 == factor {
                vstd::arithmetic::div_mod::lemma_mod_self_0(factor as int);
            } else {
                vstd::arithmetic::div_mod::lemma_small_mod((place + 1) as nat, factor as nat);
            }
        }
        self.progress.held
    }

    /// Produces what the device is due, given how far the audio callback has
    /// come, and returns the samples in the order in which to send them.
    ///
    /// Each sample is one device sample. The samples are also kept as the
    /// most recent ones, in place of those kept before. Before each sample
    /// that is computed from the graph, the noise cells are refilled with
    /// the next numbers of the player's noise source, one for each cell.
    pub fn send_signal<S: SignalTrait>(
        &mut self,
        graph: &mut Graph<S>,
        buffered_signal: &Sfix,
        sink_cursor: u64,
    ) -> (sent: Vec<i64>)
        ensures
            sent@.len() == old(self).sample_player.samples_behind_spec(sink_cursor),
            final(self).sample_player == (SamplePlayer {
                source_cursor: (old(self).sample_player.source_cursor + sent@.len()) as u64,
                ..old(self).sample_player
            }),
            final(self).downsample == old(self).downsample,
            final(self).recent_samples@ == sent@,
            final(graph)@.same_shape(old(graph)@),
            ({
                let played = played_spec(
                    old(self).progress,
                    old(self).sample_player.sample_rate,
                    old(self).downsample,
                    old(graph)@,
                    buffered_signal.id(),
                    old(self).noise.stream(),
                    sent@.len(),
                );
                &&& final(self).progress == played.progress
                &&& final(graph)@ == played.graph
                &&& sent@ == played.sent
                &&& forall|i: nat| #[trigger]
                    final(self).noise.stream()[i] == old(self).noise.stream()[(i
                        + played.used) as nat]
            }),
    {
        self.recent_samples.clear();
        let n = self.sample_player.play_stream(sink_cursor);
        let mut sent: Vec<i64> = Vec::new();
        let ghost stream = self.noise.stream();
        let ghost mut used: nat = 0;
        let mut i: u64 = 0;
        while i < n
            invariant
                i <= n,
                sent@.len() == i,
                stream == old(self).noise.stream(),
                self.recent_samples@ == sent@,
                self.sample_player == (SamplePlayer {
                    source_cursor: (old(self).sample_player.source_cursor + n) as u64,
                    ..old(self).sample_player
                }),
                self.downsample == old(self).downsample,
                graph@.same_shape(old(graph)@),
                forall|k: nat| #[trigger] self.noise.stream()[k] == stream[(k + used) as nat],
                played_spec(
                    old(self).progress,
                    old(self).sample_player.sample_rate,
                    old(self).downsample,
                    old(graph)@,
                    buffered_signal.id(),
                    stream,
                    i as nat,
                ) == (Played { progress: self.progress, graph: graph@, sent: sent@, used }),
            decreases n - i,
        {
            let wanted = if self.computes() { graph.noise_len() } else { 0 };
            let ghost here = self.noise.stream();
            let draws = self.noise.draw(wanted);
            proof {
                let expected = draws_spec(self.progress, self.downsample, graph@, stream, used);
                assert(draws@.len() == expected.len());
                assert forall|j: int| 0 <= j < draws@.len() implies draws@[j] == expected[j] by {
                    assert(draws@[j] == here[j as nat]);
                    assert(here[j as nat] == stream[(j as nat + used) as nat]);
                }
                assert(draws@ =~= expected);
                assert forall|k: nat| #[trigger]
                    self.noise.stream()[k] == stream[(k + used + wanted) as nat] by {
                    assert(self.noise.stream()[k] == here[(k + wanted) as nat]);
                    assert(here[(k + wanted) as nat] == stream[((k + wanted) as nat + used) as nat]);
                }
                used = used + wanted as nat;
            }
            let sample = self.next_sample(graph, buffered_signal, &draws);
            sent.push(sample);
            self.recent_samples.push(sample);
            i += 1;
        }
        sent
    }

    /// Moves the most recent samples into `buffer`, in place of what it held.
    pub fn swap_recent_samples(&mut self, buffer: &mut Vec<i64>)
        ensures
            final(buffer)@ == old(self).recent_samples@,
            final(self).recent_samples@.len() == 0,
            final(self).sample_player == old(self).sample_player,
            final(self).downsample == old(self).downsample,
            final(self).progress == old(self).progress,
            final(self).noise == old(self).noise,
    {
        buffer.clear();
        std::mem::swap(&mut self.recent_samples, buffer);
    }
}

} // verus!
