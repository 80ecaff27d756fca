use synth_language::backend::{frames, write_frames, SamplePlayer};
use synth_language::dsl::{const_, random_uniform, saw_oscillator};
use synth_language::fixed::{HALF, ONE};
use synth_language::graph::Graph;
use synth_language::node::{Inputs, Node, SignalCtx, SignalTrait, Silence};
use synth_language::noise::NoiseSource;
use synth_language::signal::{BufferedSignal, Sfix};
use synth_language::signal_player::SignalPlayer;
use synth_language::value::Value;

/// Yields the tick and the sample rate it is sampled with.
struct Ticks;

impl SignalTrait for Ticks {
    fn next(self, inputs: Inputs, ctx: SignalCtx) -> Self {
        let mut after = self;
        after.sample(&inputs.to_vec(), &ctx);
        after
    }

    fn output(self, inputs: Inputs, ctx: SignalCtx) -> Value {
        let mut state = self;
        state.sample(&inputs.to_vec(), &ctx)
    }

    fn sample(&mut self, _inputs: &Vec<Value>, ctx: &SignalCtx) -> Value {
        Value::Num(ctx.sample_index as i64 * 100000 + ctx.sample_rate as i64)
    }
}

#[test]
fn padding_defaults_to_a_twentieth_of_the_sample_rate() {
    let mut player = SamplePlayer::new(44100, 2);
    assert_eq!(player.sample_rate(), 44100);
    assert_eq!(player.buffer_padding, 2205);
    assert_eq!(player.source_cursor, 0);
    *player.buffer_padding_mut() = 1000;
    assert_eq!(player.buffer_padding, 1000);
    assert_eq!(player.samples_behind(0), 1000);
}

#[test]
fn samples_behind_is_target_less_source() {
    let mut player = SamplePlayer::new(48000, 1);
    assert_eq!(player.samples_behind(0), 2400);
    assert_eq!(player.samples_behind(100), 2500);
    player.source_cursor = 2450;
    assert_eq!(player.samples_behind(100), 50);
    assert_eq!(player.samples_behind(50), 0);
    // ahead of the target, after the padding was cut: nothing is due
    player.source_cursor = 5000;
    assert_eq!(player.samples_behind(100), 0);
    assert_eq!(player.play_stream(100), 0);
    assert_eq!(player.source_cursor, 5000);
    // the target stops at the largest cursor
    assert_eq!(player.samples_behind(u64::MAX), u64::MAX - 5000);
}

#[test]
fn play_stream_arrives_at_the_target_whatever_the_channels() {
    for channels in [0u16, 1, 2, 6] {
        let mut player = SamplePlayer::new(200, channels);
        assert_eq!(player.buffer_padding, 10);
        // both cursors at zero: ten samples, and the source cursor at ten
        assert_eq!(player.play_stream(0), 10);
        assert_eq!(player.source_cursor, 10);
        assert_eq!(player.play_stream(0), 0);
        assert_eq!(player.play_stream(3), 3);
        assert_eq!(player.source_cursor, 13);
    }
}

#[test]
fn frames_counts_a_short_last_frame() {
    assert_eq!(frames(8, 2), 4);
    assert_eq!(frames(9, 2), 5);
    assert_eq!(frames(1, 6), 1);
    assert_eq!(frames(0, 2), 0);
    assert_eq!(frames(7, 1), 7);
    assert_eq!(frames(7, 0), 0);
    assert_eq!(frames(usize::MAX, 1), usize::MAX);
    assert_eq!(frames(usize::MAX, 2), usize::MAX / 2 + 1);
}

#[test]
fn producer_never_runs_more_than_the_padding_ahead() {
    let mut player = SamplePlayer::new(44100, 1);
    let mut sink = 0u64;
    let mut produced = 0u64;
    // a consumer that takes 300 samples between one run of the producer and the next,
    // or as many as there are
    for round in 0..50 {
        let n = player.play_stream(sink);
        produced += n;
        assert_eq!(player.source_cursor, produced);
        assert!(player.source_cursor <= sink + player.buffer_padding);
        assert_eq!(player.source_cursor, sink + 2205);
        sink += (300 + round * 7).min(produced - sink);
    }
    // nothing more is due while the consumer stands still
    assert_eq!(player.play_stream(sink), sink + 2205 - produced);
    assert_eq!(player.play_stream(sink), 0);
    player.play_sample();
    assert_eq!(player.source_cursor, sink + 2206);
    assert_eq!(player.play_stream(sink), 0);
}

#[test]
fn send_signal_produces_what_is_due_and_keeps_it_as_recent() {
    let mut g: Graph<Ticks> = Graph::new();
    let ticks: Sfix = BufferedSignal::new(&mut g, Node::Custom { inputs: vec![], custom: Ticks });
    let mut player = SignalPlayer::new(1000, 1, 1, [0; 16]);
    assert_eq!(player.sample_rate(), 1000);
    let sent = player.send_signal(&mut g, &ticks, 0);
    assert_eq!(sent.len(), 50);
    for i in 0..50 {
        assert_eq!(sent[i], i as i64 * 100000 + 1000);
    }
    assert_eq!(player.sample_player.source_cursor, 50);
    assert_eq!(player.progress.sample_index, 50);
    assert_eq!(player.recent_samples, sent);
    // the device has played 20 samples: 20 more are due
    let sent = player.send_signal(&mut g, &ticks, 20);
    assert_eq!(sent.len(), 20);
    assert_eq!(sent[0], 50 * 100000 + 1000);
    assert_eq!(player.sample_player.source_cursor, 70);
    assert_eq!(player.recent_samples.len(), 20);
    let sent = player.send_signal(&mut g, &ticks, 20);
    assert_eq!(sent.len(), 0);
    assert_eq!(player.recent_samples.len(), 0);
}

#[test]
fn swap_recent_samples_hands_the_samples_over() {
    let mut g: Graph<Silence> = Graph::new();
    let c = const_(&mut g, 7i64);
    let mut player = SignalPlayer::new(100, 1, 1, [0; 16]);
    player.send_signal(&mut g, &c, 0);
    let mut buffer = vec![1, 2, 3];
    player.swap_recent_samples(&mut buffer);
    assert_eq!(buffer, vec![7; 5]);
    assert_eq!(player.recent_samples.len(), 0);
}

#[test]
fn downsampling_holds_each_sample() {
    let mut g: Graph<Ticks> = Graph::new();
    let ticks: Sfix = BufferedSignal::new(&mut g, Node::Custom { inputs: vec![], custom: Ticks });
    let mut player = SignalPlayer::new(1000, 1, 4, [0; 16]);
    // the graph runs at a quarter of the device's rate
    assert_eq!(player.sample_rate(), 250);
    let sent = player.send_signal(&mut g, &ticks, 0);
    assert_eq!(sent.len(), 50);
    for i in 0..50 {
        assert_eq!(sent[i], (i / 4) as i64 * 100000 + 250);
    }
    assert_eq!(player.progress.sample_index, 13);
    assert_eq!(player.progress.position, 2);
    // the next run goes on in the middle of a group
    let sent = player.send_signal(&mut g, &ticks, 3);
    assert_eq!(sent, vec![12 * 100000 + 250, 12 * 100000 + 250, 13 * 100000 + 250]);
    // a factor of zero counts as one
    let mut player = SignalPlayer::new(1000, 1, 0, [0; 16]);
    assert_eq!(player.sample_rate(), 1000);
    assert!(player.computes());
    let sent = player.send_signal(&mut g, &ticks, 0);
    assert_eq!(sent.len(), 50);
}

#[test]
fn players_of_one_graph_play_a_saw() {
    let mut g: Graph<Silence> = Graph::new();
    let f = const_(&mut g, 11025 * ONE);
    let osc = saw_oscillator(&mut g, f, Silence);
    let mut player = SignalPlayer::new(44100, 2, 1, [0; 16]);
    let sent = player.send_signal(&mut g, &osc, 0);
    // 2205 samples of padding, one sample for each frame, whatever the channels
    assert_eq!(sent.len(), 2205);
    assert_eq!(&sent[0..5], &[-HALF, 0, HALF, -ONE, -HALF]);
}

#[test]
fn noise_is_uniform_in_the_unit_interval_and_follows_its_seed() {
    let mut g: Graph<Silence> = Graph::new();
    let noise = random_uniform(&mut g);
    let mut player = SignalPlayer::new(44100, 1, 1, [7; 16]);
    let first = player.send_signal(&mut g, &noise, 0);
    assert_eq!(first.len(), 2205);
    let mut below = 0;
    for s in &first {
        assert!(0 <= *s && *s < ONE);
        if *s < HALF {
            below += 1;
        }
    }
    assert!(below > 900 && below < 1300, "{} of 2205 below one half", below);
    let mut distinct = first.clone();
    distinct.sort();
    distinct.dedup();
    assert!(distinct.len() > 2000);

    // the same seed gives the same noise, another seed another
    let mut g2: Graph<Silence> = Graph::new();
    let noise2 = random_uniform(&mut g2);
    let mut same = SignalPlayer::new(44100, 1, 1, [7; 16]);
    assert_eq!(same.send_signal(&mut g2, &noise2, 0), first);
    let mut g3: Graph<Silence> = Graph::new();
    let noise3 = random_uniform(&mut g3);
    let mut other = SignalPlayer::new(44100, 1, 1, [8; 16]);
    assert_ne!(other.send_signal(&mut g3, &noise3, 0), first);
}

#[test]
fn noise_source_draws_as_many_numbers_as_asked() {
    let mut source = NoiseSource::new([1; 16]);
    assert_eq!(source.draw(0).len(), 0);
    let a = source.draw(5);
    let b = source.draw(5);
    assert_eq!(a.len(), 5);
    assert_ne!(a, b);
    let mut again = NoiseSource::new([1; 16]);
    assert_eq!(again.draw(5), a);
}

#[test]
fn noise_source_yields_one_sequence_however_it_is_drawn() {
    let mut whole = NoiseSource::new([9; 16]);
    let all = whole.draw(7);
    let mut parts = NoiseSource::new([9; 16]);
    let mut pieced = parts.draw(2);
    pieced.extend(parts.draw(0));
    pieced.extend(parts.draw(4));
    pieced.extend(parts.draw(1));
    assert_eq!(pieced, all);
    // both stand at the same place afterwards
    assert_eq!(parts.draw(3), whole.draw(3));
    // a seed of nothing but zeros is a seed like any other
    let mut zero = NoiseSource::new([0; 16]);
    let mut again = NoiseSource::new([0; 16]);
    let first = zero.draw(4);
    assert_eq!(again.draw(4), first);
    assert_ne!(first, vec![0, 0, 0, 0]);
}

#[test]
fn noise_cells_are_refilled_in_order() {
    let mut g: Graph<Silence> = Graph::new();
    let a = random_uniform(&mut g);
    let b = random_uniform(&mut g);
    assert_eq!(g.noise_len(), 2);
    g.set_noise(&vec![1u32 << 31, 1u32 << 30, 5]);
    let ctx = SignalCtx { sample_index: 0, sample_rate: 1 };
    assert_eq!(a.sample(&mut g, &ctx), HALF);
    assert_eq!(b.sample(&mut g, &ctx), ONE / 4);
    g.set_noise(&vec![3]);
    let ctx = SignalCtx { sample_index: 1, sample_rate: 1 };
    assert_eq!(a.sample(&mut g, &ctx), 3);
    assert_eq!(b.sample(&mut g, &ctx), ONE / 4);
}

#[test]
fn write_frames_fills_every_channel_of_a_frame() {
    let mut data = vec![-1; 8];
    let written = write_frames(&mut data, 2, &vec![10, 20, 30]);
    assert_eq!(written, 3);
    assert_eq!(data, vec![10, 10, 20, 20, 30, 30, -1, -1]);
    // more samples than frames
    let mut data = vec![-1; 4];
    assert_eq!(write_frames(&mut data, 2, &vec![10, 20, 30]), 2);
    assert_eq!(data, vec![10, 10, 20, 20]);
    // a short last frame counts as a frame
    let mut data = vec![-1; 5];
    assert_eq!(write_frames(&mut data, 2, &vec![10, 20, 30, 40]), 3);
    assert_eq!(data, vec![10, 10, 20, 20, 30]);
    // nothing arrived: the buffer stays as it is
    let mut data = vec![-1; 4];
    assert_eq!(write_frames(&mut data, 2, &vec![]), 0);
    assert_eq!(data, vec![-1; 4]);
    let mut data = vec![-1; 4];
    assert_eq!(write_frames(&mut data, 0, &vec![1, 2]), 0);
    assert_eq!(data, vec![-1; 4]);
    let mut data = vec![];
    assert_eq!(write_frames(&mut data, 3, &vec![1, 2]), 0);
}

#[test]
fn consumer_and_producer_keep_pace() {
    // a device of one channel that asks for 64 frames at a time
    let mut g: Graph<Ticks> = Graph::new();
    let ticks: Sfix = BufferedSignal::new(&mut g, Node::Custom { inputs: vec![], custom: Ticks });
    let mut player = SignalPlayer::new(1000, 1, 1, [0; 16]);
    let mut queue: Vec<i64> = Vec::new();
    let mut sink = 0u64;
    let mut played: Vec<i64> = Vec::new();
    for _ in 0..20 {
        let sent = player.send_signal(&mut g, &ticks, sink);
        queue.extend(sent);
        assert!(queue.len() as u64 <= player.sample_player.buffer_padding);
        let mut data = vec![0; 64];
        let written = write_frames(&mut data, 1, &queue);
        played.extend(&data[0..written]);
        queue.drain(0..written);
        sink += written as u64;
    }
    for i in 0..played.len() {
        assert_eq!(played[i], i as i64 * 100000 + 1000);
    }
    assert_eq!(sink, played.len() as u64);
}
