use twitch_tools::mixer::{Action, MixerLoop, Poll, Span};
use twitch_tools::output::{check_sample_rate, OutputError};
use twitch_tools::pacing::Pacer;

const CHUNK: usize = 1024;
const RATE: u32 = 48_000;

/// Mixes one chunk the way the output thread does: zeroed, then each span
/// of the plan added sample by sample.
fn mix_chunk(mixer: &MixerLoop<usize>, sounds: &[Vec<[f32; 2]>]) -> Vec<[f32; 2]> {
    let mut chunk = vec![[0.0f32; 2]; mixer.chunk_size];
    for span in mixer.plan() {
        let sound = &sounds[mixer.playing[span.instance].sound];
        for j in 0..span.count {
            chunk[j][0] += sound[span.start + j][0];
            chunk[j][1] += sound[span.start + j][1];
        }
    }
    chunk
}

/// Runs the loop from the current state until it waits again, collecting
/// every chunk written.
fn run_until_waiting(mixer: &mut MixerLoop<usize>, sounds: &[Vec<[f32; 2]>]) -> Vec<[f32; 2]> {
    let mut out = Vec::new();
    let mut now: u64 = 0;
    while !mixer.is_waiting() {
        assert_eq!(mixer.receive(Poll::Empty, now), Action::Mix);
        out.extend(mix_chunk(mixer, sounds));
        let delay = mixer.finish_chunk(now);
        now += delay as u64;
    }
    out
}

fn constant(len: usize, v: f32) -> Vec<[f32; 2]> {
    vec![[v, v]; len]
}

#[test]
fn two_triggers_mix_and_return_to_waiting() {
    let sounds = vec![constant(2000, 0.5), constant(1000, 0.25)];
    let mut mixer = MixerLoop::new(RATE, CHUNK);
    assert!(mixer.is_waiting());
    assert_eq!(mixer.receive(Poll::Sound(0, 2000), 0), Action::Poll);
    assert_eq!(mixer.receive(Poll::Sound(1, 1000), 0), Action::Poll);
    assert_eq!(mixer.playing.len(), 2);

    let out = run_until_waiting(&mut mixer, &sounds);
    assert_eq!(out.len(), 2 * CHUNK);
    for (i, frame) in out.iter().enumerate() {
        let expected = if i < 1000 {
            0.75
        } else if i < 2000 {
            0.5
        } else {
            0.0
        };
        assert_eq!(*frame, [expected, expected], "frame {i}");
    }
    assert!(mixer.is_waiting());
}

#[test]
fn mixed_frames_sum_per_channel() {
    let a: Vec<[f32; 2]> = (0..1500).map(|i| [i as f32, -(i as f32)]).collect();
    let b: Vec<[f32; 2]> = (0..700).map(|i| [0.5 * i as f32, 2.0]).collect();
    let sounds = vec![a.clone(), b.clone()];
    let mut mixer = MixerLoop::new(RATE, CHUNK);
    mixer.receive(Poll::Sound(0, a.len()), 0);
    mixer.receive(Poll::Sound(1, b.len()), 0);
    let out = run_until_waiting(&mut mixer, &sounds);
    for i in 0..out.len() {
        let mut expected = [0.0f32, 0.0];
        if i < a.len() {
            expected[0] += a[i][0];
            expected[1] += a[i][1];
        }
        if i < b.len() {
            expected[0] += b[i][0];
            expected[1] += b[i][1];
        }
        assert_eq!(out[i], expected, "frame {i}");
    }
}

#[test]
fn plan_spans_follow_cursors() {
    let mut mixer: MixerLoop<usize> = MixerLoop::new(RATE, CHUNK);
    mixer.receive(Poll::Sound(7, 2000), 0);
    mixer.receive(Poll::Sound(8, 1000), 0);
    assert_eq!(
        mixer.plan(),
        vec![
            Span { instance: 0, start: 0, count: 1024 },
            Span { instance: 1, start: 0, count: 1000 },
        ]
    );
    mixer.finish_chunk(0);
    assert_eq!(mixer.playing.len(), 1);
    assert_eq!(mixer.playing[0].sound, 7);
    assert_eq!(mixer.playing[0].cursor, 1024);
    assert_eq!(mixer.plan(), vec![Span { instance: 0, start: 1024, count: 976 }]);
    mixer.finish_chunk(0);
    assert!(mixer.is_waiting());
}

#[test]
fn zero_length_sound_leaves_after_one_chunk() {
    let mut mixer: MixerLoop<usize> = MixerLoop::new(RATE, CHUNK);
    mixer.receive(Poll::Sound(0, 0), 0);
    assert_eq!(mixer.receive(Poll::Empty, 0), Action::Mix);
    assert_eq!(mixer.plan(), vec![Span { instance: 0, start: 0, count: 0 }]);
    mixer.finish_chunk(0);
    assert!(mixer.is_waiting());
}

#[test]
fn zero_length_sound_beside_another() {
    let mut mixer: MixerLoop<usize> = MixerLoop::new(RATE, CHUNK);
    mixer.receive(Poll::Sound(0, 3000), 0);
    mixer.receive(Poll::Sound(1, 0), 0);
    mixer.finish_chunk(0);
    assert_eq!(mixer.playing.len(), 1);
    assert_eq!(mixer.playing[0].sound, 0);
}

#[test]
fn sample_rate_mismatch_is_rejected() {
    assert_eq!(
        check_sample_rate(48_000, 44_100),
        Err(OutputError::SampleRateMismatch { expected: 48_000, found: 44_100 })
    );
    assert_eq!(check_sample_rate(48_000, 48_000), Ok(()));
}

#[test]
fn rejected_trigger_leaves_playback_alone() {
    let mut mixer: MixerLoop<usize> = MixerLoop::new(RATE, CHUNK);
    mixer.receive(Poll::Sound(0, 5000), 0);
    mixer.finish_chunk(0);
    let before: Vec<(usize, usize, usize)> =
        mixer.playing.iter().map(|p| (p.sound, p.len, p.cursor)).collect();
    if check_sample_rate(RATE, 44_100).is_ok() {
        mixer.receive(Poll::Sound(1, 100), 0);
    }
    let after: Vec<(usize, usize, usize)> =
        mixer.playing.iter().map(|p| (p.sound, p.len, p.cursor)).collect();
    assert_eq!(before, after);
}

#[test]
fn pacing_deadlines_do_not_drift() {
    let mut pacer = Pacer::new(RATE, 1_000);
    for n in 1..=1000u64 {
        pacer.advance(CHUNK);
        let exact = 1_000 + (n as u128 * CHUNK as u128 * 1_000_000_000) / RATE as u128;
        assert_eq!(pacer.target_ns(), exact);
    }
    // 1000 chunks of 1024 frames at 48 kHz: 21.333... s, rounded down once.
    assert_eq!(pacer.target_ns(), 1_000 + 21_333_333_333);
}

#[test]
fn pacing_sleeps_only_when_ahead() {
    let mut pacer = Pacer::new(RATE, 0);
    pacer.advance(CHUNK);
    // one chunk is 21_333_333 ns
    assert_eq!(pacer.delay_ns(1_000_000), 20_333_333);
    assert_eq!(pacer.delay_ns(21_333_333), 0);
    assert_eq!(pacer.delay_ns(30_000_000), 0);
    // a late chunk does not move the anchor
    pacer.advance(CHUNK);
    assert_eq!(pacer.target_ns(), 42_666_666);
    assert_eq!(pacer.delay_ns(40_000_000), 2_666_666);
}

#[test]
fn waiting_trigger_anchors_pacing() {
    let mut mixer: MixerLoop<usize> = MixerLoop::new(RATE, CHUNK);
    mixer.receive(Poll::Sound(0, 4096), 5_000_000);
    assert_eq!(mixer.pacer.anchor_ns, 5_000_000);
    assert_eq!(mixer.pacer.frames, 0);
    let delay = mixer.finish_chunk(5_000_000);
    assert_eq!(delay, 21_333_333);
    // a trigger while mixing keeps the anchor
    mixer.receive(Poll::Sound(1, 10), 9_000_000);
    assert_eq!(mixer.pacer.anchor_ns, 5_000_000);
    assert_eq!(mixer.pacer.frames, 1024);
}

#[test]
fn closed_channel_drains_playing_sounds() {
    let mut mixer: MixerLoop<usize> = MixerLoop::new(RATE, CHUNK);
    mixer.receive(Poll::Sound(0, 3000), 0);
    let mut chunks = 0;
    loop {
        match mixer.receive(Poll::Closed, 0) {
            Action::Mix => {
                mixer.finish_chunk(0);
                chunks += 1;
            }
            Action::Exit => break,
            Action::Poll => panic!("a closed channel is not polled again"),
        }
    }
    assert_eq!(chunks, 3);
    assert!(mixer.is_waiting());
}

#[test]
fn waiting_on_empty_poll_keeps_waiting() {
    let mut mixer: MixerLoop<usize> = MixerLoop::new(RATE, CHUNK);
    assert_eq!(mixer.receive(Poll::Empty, 0), Action::Poll);
    assert_eq!(mixer.receive(Poll::Closed, 0), Action::Exit);
}

#[test]
fn silent_sound_still_occupies_its_slot() {
    let mut quiet = constant(2500, 0.8);
    for frame in quiet.iter_mut() {
        frame[0] *= 0.0;
        frame[1] *= 0.0;
    }
    let sounds = vec![quiet];
    let mut mixer = MixerLoop::new(RATE, CHUNK);
    mixer.receive(Poll::Sound(0, 2500), 0);
    let mut chunks = 0;
    while !mixer.is_waiting() {
        assert_eq!(mixer.playing.len(), 1);
        mixer.receive(Poll::Empty, 0);
        let chunk = mix_chunk(&mixer, &sounds);
        assert!(chunk.iter().all(|f| *f == [0.0, 0.0]));
        mixer.finish_chunk(0);
        chunks += 1;
    }
    assert_eq!(chunks, 3);
}

#[test]
fn every_queued_trigger_starts_in_the_next_chunk() {
    let mut mixer: MixerLoop<usize> = MixerLoop::new(RATE, CHUNK);
    for k in 0..200 {
        assert_eq!(mixer.receive(Poll::Sound(k, 100 + k), 0), Action::Poll);
    }
    assert_eq!(mixer.receive(Poll::Empty, 0), Action::Mix);
    let spans = mixer.plan();
    assert_eq!(spans.len(), 200);
    for (k, span) in spans.iter().enumerate() {
        assert_eq!(*span, Span { instance: k, start: 0, count: 100 + k });
        assert_eq!(mixer.playing[k].sound, k);
    }
    mixer.finish_chunk(0);
    assert!(mixer.is_waiting());
}
