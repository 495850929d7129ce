//! A low-latency audio mixing engine: sound clips are scheduled as one-shot
//! effects or seekable music, mixed into a single output stream once per
//! hardware tick, while a rolling estimate of the device latency is kept.
//!
//! Samples are fixed-point integers: an amplitude is an `i64`, an amplifier
//! (volume multiplier) is a `u32` in units of `AMP_ONE`, and playback rates
//! and times are `u64` values in units of `FRAC_ONE`.
//!
//! Two execution contexts share the engine: the control context (the
//! application's threads, going through `AudioManager` and the `Sfx` /
//! `Music` handles) and the audio callback context (one thread owned by the
//! device, driving the `Mixer`). They communicate only over bounded,
//! non-blocking channels and one shared atomic latency cell, so the audio
//! path never waits on the control path.
use std::sync::atomic::{AtomicU64, Ordering};
use std::sync::Arc;
use vstd::prelude::*;

pub mod backend;
pub mod channel;
pub mod clip;
pub mod frame;
pub mod latency;
pub mod mixer;
pub mod renderer;

pub use backend::{Backend, BackendSetup, StubBackend};
pub use clip::AudioClip;
pub use frame::Frame;
pub use latency::LatencyRecorder;
pub use mixer::{Mixer, MixerCommand, Renderer};
pub use renderer::{Music, MusicParams, MusicRenderer, PlaySfxParams, Sfx, SfxRenderer};

use crate::channel::{channel, send, Sender};
use crate::mixer::{mixer_ticked_via, CHANNEL_CAP};

verus! {

/// Every failure the control surface can report.
#[derive(Clone, Copy, Debug, PartialEq, Eq, Structural)]
pub enum AudioError {
    /// A bounded command channel was full; the command was dropped.
    BufferFull,
    /// The backend could not be configured.
    SetupFailed,
    /// The backend could not open or resume the stream.
    StartFailed,
    /// A clip was rejected at construction.
    InvalidClip,
}

/// Maps a failed channel push to the backpressure error.
pub fn buffer_is_full<E>(_e: E) -> (r: AudioError)
    ensures
        r == AudioError::BufferFull,
{
    AudioError::BufferFull
}

/// Relies on `Arc::clone`: the new handle refers to the very same shared
/// allocation, so as a value it is equal to the old one.
#[verifier::external_body]
pub(crate) fn share_arc<T>(x: &Arc<T>) -> (r: Arc<T>)
    ensures
        r == *x,
{
    Arc::clone(x)
}

/// The control-plane facade: owns the backend, the producer end of the
/// command channel, and the shared latency cell.
pub struct AudioManager<B: Backend> {
    backend: B,
    latency: Arc<AtomicU64>,
    prod: Sender<MixerCommand>,
}

impl<B: Backend> AudioManager<B> {
    /// Whether the backend reports its stream broken.
    pub closed spec fn broken(&self) -> bool {
        self.backend.broken_spec()
    }

    /// Whether the backend is sure to start on request.
    pub closed spec fn startable(&self) -> bool {
        self.backend.start_succeeds()
    }

    /// Builds the command channel, the latency recorder and its shared
    /// cell, wires them into the backend, and starts the stream; fails if
    /// either backend step fails.
    pub fn new(backend: B) -> (r: Result<AudioManager<B>, AudioError>)
        ensures
            backend.setup_succeeds() && backend.start_succeeds() ==> r is Ok,
    {
        let mut backend = backend;
        let (prod, cons) = channel(CHANNEL_CAP);
        let latency: Arc<AtomicU64> = Arc::new(AtomicU64::new(0));
        let latency_rec = LatencyRecorder::new(share_arc(&latency));
        match backend.setup(BackendSetup { mixer_cons: cons, latency_rec }) {
            Ok(()) => {},
            Err(e) => {
                return Err(e);
            },
        }
        match backend.start() {
            Ok(()) => {},
            Err(e) => {
                return Err(e);
            },
        }
        Ok(AudioManager { backend, latency, prod })
    }

    /// Builds a sound-effect handle and registers its renderer with the
    /// mixer; fails with `BufferFull` if the command channel is full, in
    /// which case the effect is dropped.
    pub fn create_sfx(&mut self, clip: AudioClip, buffer_size: Option<usize>) -> (r: Result<
        Sfx,
        AudioError,
    >)
        ensures
            r matches Err(e) ==> e == AudioError::BufferFull,
    {
        let (sfx, sfx_renderer) = Sfx::new(clip, buffer_size);
        match self.add_renderer(Renderer::Sfx(sfx_renderer)) {
            Ok(()) => Ok(sfx),
            Err(e) => Err(e),
        }
    }

    /// Builds a music handle and registers its renderer with the mixer;
    /// fails with `BufferFull` if the command channel is full, in which
    /// case the track is dropped.
    pub fn create_music(&mut self, clip: AudioClip, settings: MusicParams) -> (r: Result<
        Music,
        AudioError,
    >)
        ensures
            r matches Err(e) ==> e == AudioError::BufferFull,
            r matches Ok(m) ==> m.paused_spec() == settings.paused,
    {
        let (music, music_renderer) = Music::new(clip, settings);
        match self.add_renderer(Renderer::Music(music_renderer)) {
            Ok(()) => Ok(music),
            Err(e) => Err(e),
        }
    }

    /// Enqueues a renderer for the mixer to adopt on its next tick. Never
    /// blocks: a full channel reports `BufferFull` at once and the renderer
    /// is dropped, never silently queued or retried.
    pub fn add_renderer(&mut self, renderer: Renderer) -> (r: Result<(), AudioError>)
        ensures
            r matches Err(e) ==> e == AudioError::BufferFull,
    {
        match send(&mut self.prod, MixerCommand::AddRenderer(renderer)) {
            Ok(()) => Ok(()),
            Err(rejected) => Err(buffer_is_full(rejected)),
        }
    }

    /// The latest published latency estimate in nanoseconds: a lock-free
    /// read of the cell the audio context writes after every sample.
    pub fn estimate_latency(&self) -> u64 {
        self.latency.load(Ordering::SeqCst)
    }

    /// Polls the backend: reports whether the stream has broken since last
    /// asked, and clears the flag.
    pub fn consume_broken(&mut self) -> (r: bool)
        ensures
            r == old(self).broken(),
            !final(self).broken(),
            final(self).startable() == old(self).startable(),
    {
        self.backend.consume_broken()
    }

    /// Opens or resumes the stream; once it has succeeded, starting again
    /// succeeds too.
    pub fn start(&mut self) -> (r: Result<(), AudioError>)
        ensures
            old(self).startable() ==> r is Ok,
            r is Ok ==> final(self).startable(),
            r is Err ==> final(self).startable() == old(self).startable(),
    {
        self.backend.start()
    }

    /// The sole recovery policy: if the stream broke, start it again;
    /// otherwise do nothing (the poll itself clears the flag). How often to
    /// poll is the caller's decision.
    pub fn recover_if_needed(&mut self) -> (r: Result<(), AudioError>)
        ensures
            !old(self).broken() ==> r is Ok && !final(self).broken(),
            old(self).broken() && old(self).startable() ==> r is Ok,
            r is Err ==> old(self).broken(),
    {
        if self.consume_broken() {
            self.start()
        } else {
            Ok(())
        }
    }
}

impl AudioManager<StubBackend> {
    /// The stub backend it owns is well-formed.
    pub closed spec fn stub_wf(&self) -> bool {
        self.backend.wf()
    }

    /// Builds a manager over a fresh manually driven stub backend, wired
    /// and started as `new` does it, but with the wiring visible to
    /// proofs: the engine starts well-formed and empty, so the manager can
    /// be driven tick by tick from verified code.
    pub fn new_stub() -> (r: AudioManager<StubBackend>)
        ensures
            r.stub_wf(),
            r.stub_wired(),
            r.stub_recording(),
            r.stub_renderers() == Seq::<Renderer>::empty(),
            r.stub_history() == Seq::<u64>::empty(),
            !r.broken(),
    {
        let mut backend = StubBackend::new();
        let (prod, cons) = channel(CHANNEL_CAP);
        let latency: Arc<AtomicU64> = Arc::new(AtomicU64::new(0));
        let latency_rec = LatencyRecorder::new(share_arc(&latency));
        backend.wire(BackendSetup { mixer_cons: cons, latency_rec });
        backend.start_stream();
        AudioManager { backend, latency, prod }
    }

    /// Whether the stub's mixer has been wired in.
    pub closed spec fn stub_wired(&self) -> bool {
        self.backend.engine_wired()
    }

    /// Whether the stub's latency recorder has been wired in.
    pub closed spec fn stub_recording(&self) -> bool {
        self.backend.recorder_wired()
    }

    /// The latency samples the stub has recorded, oldest first.
    pub closed spec fn stub_history(&self) -> Seq<u64> {
        self.backend.recorder_history()
    }

    /// The renderers the stub's mixer holds, in its order.
    pub closed spec fn stub_renderers(&self) -> Seq<Renderer> {
        self.backend.mixer_renderers()
    }

    /// Drives one manual hardware period of the stub backend, handing it
    /// the latency sample a device would have measured: the mixer runs one
    /// full tick and the sample joins the latency history.
    pub fn drive_tick(&mut self, latency_ns: u64) -> (out: Option<Frame>)
        requires
            old(self).stub_wf(),
        ensures
            final(self).stub_wf(),
            out is Some <==> old(self).stub_wired(),
            final(self).stub_wired() == old(self).stub_wired(),
            final(self).stub_recording() == old(self).stub_recording(),
            old(self).stub_recording() ==> final(self).stub_history() == old(
                self,
            ).stub_history().push(latency_ns),
            !old(self).stub_recording() ==> final(self).stub_history() == old(self).stub_history(),
            out matches Some(f) ==> exists|
                added: Seq<Renderer>,
                ticked: Seq<Renderer>,
                outs: Seq<Option<Frame>>,
            |
                #[trigger] mixer_ticked_via(
                    old(self).stub_renderers(),
                    final(self).stub_renderers(),
                    f,
                    added,
                    ticked,
                    outs,
                ),
            out is Some ==> final(self).stub_renderers().len() <= old(
                self,
            ).stub_renderers().len() + CHANNEL_CAP,
            out is None ==> final(self).stub_renderers() == old(self).stub_renderers(),
    {
        let out = self.backend.tick(latency_ns);
        proof {
            match out {
                Some(f) => {
                    let (a, t, o) = choose|
                        a: Seq<Renderer>,
                        t: Seq<Renderer>,
                        o: Seq<Option<Frame>>,
                    |
                        mixer_ticked_via(
                            old(self).backend.mixer_renderers(),
                            self.backend.mixer_renderers(),
                            f,
                            a,
                            t,
                            o,
                        );
                    assert(mixer_ticked_via(
                        old(self).stub_renderers(),
                        self.stub_renderers(),
                        f,
                        a,
                        t,
                        o,
                    ));
                },
                None => {},
            }
        }
        out
    }

    /// Marks the stub's stream broken, as a device failure would; the
    /// engine state is untouched.
    pub fn break_stream(&mut self)
        requires
            old(self).stub_wf(),
        ensures
            final(self).stub_wf(),
            final(self).broken(),
            final(self).stub_renderers() == old(self).stub_renderers(),
            final(self).stub_history() == old(self).stub_history(),
    {
        self.backend.break_stream()
    }

    /// How many renderers the stub's mixer currently holds.
    pub fn active_count(&self) -> (r: usize)
        ensures
            r == self.stub_renderers().len(),
    {
        self.backend.active_count()
    }
}

} // verus!
