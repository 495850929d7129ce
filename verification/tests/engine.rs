//! End-to-end and unit tests for the mixing engine, driven tick by tick
//! against the stub backend. Amplitudes are fixed point: 65536 stands for a
//! full-scale 1.0 sample, `AMP_ONE` for unit volume, `FRAC_ONE` for one
//! second or a rate of 1.0.
use sasa::channel::{channel, recv, send};
use sasa::frame::{AMP_ONE, FRAC_ONE};
use sasa::latency::LatencyRecorder;
use sasa::{
    buffer_is_full, AudioClip, AudioError, AudioManager, Frame, MusicParams, PlaySfxParams,
    StubBackend,
};
use std::sync::atomic::{AtomicU64, Ordering};
use std::sync::Arc;

const ONE: i64 = 65536;

fn mono_clip(value: i64, count: usize, rate: u32) -> AudioClip {
    let frames = vec![Frame { left: value, right: value }; count];
    AudioClip::new(frames, rate).expect("valid clip")
}

#[test]
fn frame_arithmetic() {
    let a = Frame { left: 3, right: 5 };
    let b = Frame { left: 10, right: -2 };
    assert_eq!(a.add(b), Frame { left: 13, right: 3 });
    assert_eq!(a.avg(), 4);
    assert_eq!(Frame { left: -3, right: -4 }.avg(), -3);
    assert_eq!(Frame { left: 1000, right: -1000 }.scale(AMP_ONE), Frame { left: 1000, right: -1000 });
    assert_eq!(Frame { left: 1000, right: -1000 }.scale(AMP_ONE / 2), Frame { left: 500, right: -500 });
    let lo = Frame { left: 0, right: 100 };
    let hi = Frame { left: 1000, right: 200 };
    let mid = lo.interpolate(&hi, FRAC_ONE / 2);
    assert_eq!(mid, Frame { left: 500, right: 150 });
    assert_eq!(lo.interpolate(&hi, 0), lo);
    assert_eq!(lo.interpolate(&hi, FRAC_ONE), hi);
}

#[test]
fn mixing_order_does_not_matter() {
    let a = Frame { left: 7, right: -9 };
    let b = Frame { left: i64::MAX, right: 4 };
    let c = Frame { left: 100, right: i64::MIN };
    assert_eq!(a.add(b), b.add(a));
    assert_eq!(a.add(b).add(c), a.add(b.add(c)));
}

#[test]
fn buffer_is_full_maps_everything() {
    assert_eq!(buffer_is_full(42u32), AudioError::BufferFull);
    assert_eq!(buffer_is_full("rejected"), AudioError::BufferFull);
}

#[test]
fn clip_rejects_bad_input() {
    match AudioClip::new(vec![], 0) {
        Err(e) => assert_eq!(e, AudioError::InvalidClip),
        Ok(_) => panic!("zero sample rate accepted"),
    }
    let too_loud = vec![Frame { left: i64::MAX, right: 0 }];
    match AudioClip::new(too_loud, 44100) {
        Err(e) => assert_eq!(e, AudioError::InvalidClip),
        Ok(_) => panic!("out-of-range amplitude accepted"),
    }
}

#[test]
fn clip_duration_and_sharing() {
    let clip = mono_clip(ONE, 4, 2);
    assert_eq!(clip.frame_count(), 4);
    assert_eq!(clip.sample_rate(), 2);
    // 4 frames at 2 Hz = 2 seconds.
    assert_eq!(clip.length(), 2 * FRAC_ONE);
    let copy = clip.duplicate();
    assert_eq!(copy.frame_count(), 4);
    assert_eq!(copy.frame_at(3), Frame { left: ONE, right: ONE });
}

#[test]
fn channel_full_fails_without_blocking() {
    let (mut tx, mut rx) = channel::<u32>(16);
    for i in 0..16u32 {
        assert_eq!(send(&mut tx, i), Ok(()));
    }
    // Enqueueing beyond capacity fails at once and hands the item back.
    assert_eq!(send(&mut tx, 99), Err(99));
    // The channel state is unchanged: exactly the 16 accepted items remain.
    for i in 0..16u32 {
        assert_eq!(recv(&mut rx), Some(i));
    }
    assert_eq!(recv(&mut rx), None);
}

#[test]
fn latency_mean_matches_naive_recomputation() {
    let cell = Arc::new(AtomicU64::new(0));
    let mut rec = LatencyRecorder::new(Arc::clone(&cell));
    assert_eq!(rec.current_mean(), 0);
    let samples = [10u64, 20, 30, 100, 0, 50];
    let mut pushed: Vec<u64> = Vec::new();
    for s in samples {
        rec.push(s);
        pushed.push(s);
        let naive: u64 = pushed.iter().sum::<u64>() / pushed.len() as u64;
        assert_eq!(rec.current_mean(), naive);
        assert_eq!(rec.read(), naive);
        assert_eq!(cell.load(Ordering::SeqCst), naive);
    }
}

#[test]
fn latency_rolling_average_drops_oldest() {
    // 641 samples of "1.0" (here: 640 ns) and one of 0: the ring holds the
    // last 640, i.e. 639 ones and one zero, so the mean is 639/640 of full
    // scale, exactly 639 here.
    let cell = Arc::new(AtomicU64::new(0));
    let mut rec = LatencyRecorder::new(cell);
    for _ in 0..641 {
        rec.push(640);
    }
    assert_eq!(rec.read(), 640);
    rec.push(0);
    assert_eq!(rec.read(), 639);
    assert_eq!(rec.current_mean(), 639);
}

#[test]
fn sfx_plays_once_through_the_mixer() {
    // The generic constructor wires the same engine through the trait.
    let mut mgr = AudioManager::new(StubBackend::new()).expect("manager");
    let clip = mono_clip(ONE, 4, 44100);
    let mut sfx = mgr.create_sfx(clip, Some(8)).expect("sfx");
    assert_eq!(sfx.play(PlaySfxParams { amplifier: AMP_ONE }), Ok(()));
    // The renderer is adopted and played on the very tick it arrives; with
    // unit volume the four output frames equal the clip's frames.
    for _ in 0..4 {
        assert_eq!(mgr.drive_tick(0), Some(Frame { left: ONE, right: ONE }));
    }
    // After exactly clip-length ticks the renderer has completed and left
    // the active set: never earlier, never one past.
    assert_eq!(mgr.active_count(), 0);
    assert_eq!(mgr.drive_tick(0), Some(Frame { left: 0, right: 0 }));
}

#[test]
fn sfx_waits_for_play_and_retriggers() {
    let mut mgr = AudioManager::new_stub();
    let clip = mono_clip(ONE, 3, 44100);
    let mut sfx = mgr.create_sfx(clip, Some(8)).expect("sfx");
    // Registered but never played: it idles in the active set, silent.
    assert_eq!(mgr.drive_tick(0), Some(Frame { left: 0, right: 0 }));
    assert_eq!(mgr.active_count(), 1);
    // A play request restarts the cursor with the requested volume.
    assert_eq!(sfx.play(PlaySfxParams { amplifier: AMP_ONE / 2 }), Ok(()));
    assert_eq!(mgr.drive_tick(0), Some(Frame { left: ONE / 2, right: ONE / 2 }));
}

#[test]
fn sfx_play_reports_backpressure() {
    let mut mgr = AudioManager::new_stub();
    let clip = mono_clip(ONE, 3, 44100);
    let mut sfx = mgr.create_sfx(clip, Some(1)).expect("sfx");
    assert_eq!(sfx.play(PlaySfxParams { amplifier: AMP_ONE }), Ok(()));
    // The renderer has not ticked, so its one-slot queue is still full.
    assert_eq!(
        sfx.play(PlaySfxParams { amplifier: AMP_ONE }),
        Err(AudioError::BufferFull)
    );
}

#[test]
fn manager_channel_reports_backpressure() {
    // The manager's command channel holds 16 renderers while no tick
    // drains it; the 17th registration fails and nothing blocks.
    let mut mgr = AudioManager::new_stub();
    for _ in 0..16 {
        let clip = mono_clip(ONE, 2, 44100);
        assert!(mgr.create_sfx(clip, Some(2)).is_ok());
    }
    let clip = mono_clip(ONE, 2, 44100);
    match mgr.create_sfx(clip, Some(2)) {
        Err(AudioError::BufferFull) => {},
        other => panic!("expected backpressure, got {:?}", other.is_ok()),
    }
    // One tick adopts the 16 accepted renderers; the rejected one is gone.
    mgr.drive_tick(0);
    assert_eq!(mgr.active_count(), 16);
}

#[test]
fn two_sfx_sum_their_frames() {
    let mut mgr = AudioManager::new_stub();
    let clip = mono_clip(ONE, 4, 44100);
    let mut sfx_a = mgr.create_sfx(clip.duplicate(), Some(8)).expect("sfx a");
    let mut sfx_b = mgr.create_sfx(clip, Some(8)).expect("sfx b");
    assert_eq!(sfx_a.play(PlaySfxParams { amplifier: AMP_ONE }), Ok(()));
    assert_eq!(sfx_b.play(PlaySfxParams { amplifier: AMP_ONE }), Ok(()));
    // Each tick's output frame is the sum of both instances' frames.
    for _ in 0..4 {
        assert_eq!(mgr.drive_tick(0), Some(Frame { left: 2 * ONE, right: 2 * ONE }));
    }
    assert_eq!(mgr.active_count(), 0);
}

#[test]
fn music_seek_then_position_round_trips() {
    let mut mgr = AudioManager::new_stub();
    // 16 frames at 4 Hz: 4 seconds of audio.
    let clip = mono_clip(ONE, 16, 4);
    let settings = MusicParams { playback_rate: FRAC_ONE, amplifier: AMP_ONE, paused: true };
    let mut music = mgr.create_music(clip, settings).expect("music");
    assert_eq!(music.seek_to(2 * FRAC_ONE), Ok(()));
    mgr.drive_tick(0);
    assert_eq!(music.position(), 2 * FRAC_ONE);
    // Seeking beyond the end clamps to the duration.
    assert_eq!(music.seek_to(100 * FRAC_ONE), Ok(()));
    mgr.drive_tick(0);
    assert_eq!(music.position(), 4 * FRAC_ONE);
}

#[test]
fn music_pause_freezes_position() {
    let mut mgr = AudioManager::new_stub();
    let clip = mono_clip(ONE, 1000, 10);
    let settings = MusicParams { playback_rate: FRAC_ONE, amplifier: AMP_ONE, paused: true };
    let mut music = mgr.create_music(clip, settings).expect("music");
    assert!(music.paused());
    assert_eq!(music.play(), Ok(()));
    assert!(!music.paused());
    for _ in 0..5 {
        mgr.drive_tick(0);
    }
    let at_pause = music.position();
    assert_eq!(music.pause(), Ok(()));
    assert!(music.paused());
    for _ in 0..7 {
        mgr.drive_tick(0);
    }
    assert_eq!(music.position(), at_pause);
    assert_eq!(music.play(), Ok(()));
    mgr.drive_tick(0);
    mgr.drive_tick(0);
    assert!(music.position() > at_pause);
}

#[test]
fn music_renders_and_completes_at_clip_end() {
    let mut mgr = AudioManager::new_stub();
    let clip = mono_clip(ONE, 3, 44100);
    let settings = MusicParams { playback_rate: FRAC_ONE, amplifier: AMP_ONE, paused: false };
    let _music = mgr.create_music(clip, settings).expect("music");
    // Unit rate lands on whole samples, so interpolation returns them.
    for _ in 0..3 {
        assert_eq!(mgr.drive_tick(0), Some(Frame { left: ONE, right: ONE }));
    }
    // Reaching the end completes the renderer (stop, not loop) and the
    // mixer drops it.
    assert_eq!(mgr.active_count(), 0);
}

#[test]
fn music_half_rate_interpolates() {
    let mut mgr = AudioManager::new_stub();
    let frames = vec![
        Frame { left: 0, right: 0 },
        Frame { left: 1000, right: 2000 },
    ];
    let clip = AudioClip::new(frames, 44100).expect("clip");
    let settings = MusicParams { playback_rate: FRAC_ONE / 2, amplifier: AMP_ONE, paused: false };
    let _music = mgr.create_music(clip, settings).expect("music");
    assert_eq!(mgr.drive_tick(0), Some(Frame { left: 0, right: 0 }));
    // Cursor 0.5: halfway between the two samples.
    assert_eq!(mgr.drive_tick(0), Some(Frame { left: 500, right: 1000 }));
}

#[test]
fn music_volume_change_applies_next_tick() {
    let mut mgr = AudioManager::new_stub();
    let clip = mono_clip(1000, 10, 44100);
    let settings = MusicParams { playback_rate: FRAC_ONE, amplifier: AMP_ONE, paused: false };
    let mut music = mgr.create_music(clip, settings).expect("music");
    assert_eq!(mgr.drive_tick(0), Some(Frame { left: 1000, right: 1000 }));
    assert_eq!(music.set_amplifier(AMP_ONE / 4), Ok(()));
    assert_eq!(mgr.drive_tick(0), Some(Frame { left: 250, right: 250 }));
}

#[test]
fn latency_flows_from_ticks_to_manager() {
    let mut mgr = AudioManager::new_stub();
    assert_eq!(mgr.estimate_latency(), 0);
    mgr.drive_tick(1_000_000);
    assert_eq!(mgr.estimate_latency(), 1_000_000);
    mgr.drive_tick(3_000_000);
    assert_eq!(mgr.estimate_latency(), 2_000_000);
}

#[test]
fn broken_stream_recovers_once() {
    let mut mgr = AudioManager::new_stub();
    assert_eq!(mgr.recover_if_needed(), Ok(()));
    mgr.break_stream();
    assert!(mgr.consume_broken());
    // The flag was consumed: a second poll is clean.
    assert!(!mgr.consume_broken());
    mgr.break_stream();
    assert_eq!(mgr.recover_if_needed(), Ok(()));
    assert!(!mgr.consume_broken());
}

#[test]
fn default_params_are_unit() {
    let p = PlaySfxParams::default();
    assert_eq!(p.amplifier, AMP_ONE);
    let m = MusicParams::default();
    assert_eq!(m.playback_rate, FRAC_ONE);
    assert_eq!(m.amplifier, AMP_ONE);
    assert!(m.paused);
}

#[test]
fn raw_pcm_decodes_exact_samples() {
    // 0x1234 left and -1 right: samples scale by two (full scale 65536).
    let data = vec![0x34u8, 0x12, 0xFF, 0xFF, 0x00, 0x80, 0xFF, 0x7F];
    let clip = AudioClip::from_raw_pcm(&data, 44100).expect("clip");
    assert_eq!(clip.frame_count(), 2);
    assert_eq!(clip.frame_at(0), Frame { left: 2 * 0x1234, right: -2 });
    assert_eq!(clip.frame_at(1), Frame { left: 2 * -32768, right: 2 * 32767 });
}

#[test]
fn raw_pcm_drops_trailing_bytes_and_bad_rate() {
    let data = vec![1u8, 0, 1, 0, 9, 9, 9];
    let clip = AudioClip::from_raw_pcm(&data, 8000).expect("clip");
    assert_eq!(clip.frame_count(), 1);
    assert_eq!(clip.frame_at(0), Frame { left: 2, right: 2 });
    match AudioClip::from_raw_pcm(&data, 0) {
        Err(e) => assert_eq!(e, AudioError::InvalidClip),
        Ok(_) => panic!("zero sample rate accepted"),
    }
}
