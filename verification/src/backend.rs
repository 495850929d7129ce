//! The backend contract, and a manually driven stand-in for tests.
//!
//! A concrete backend owns the platform's audio stream and calls the mixer
//! once per hardware period from the callback thread the device schedules.
//! The engine itself never depends on real hardware: `StubBackend` drives
//! the very same mixer and latency recorder one explicit tick at a time.
use crate::channel::Receiver;
use crate::frame::Frame;
use crate::latency::LatencyRecorder;
use crate::mixer::{mixer_ticked_via, Mixer, MixerCommand, Renderer, CHANNEL_CAP};
use crate::AudioError;
use vstd::prelude::*;

verus! {

/// What the manager wires into a backend: the audio-thread end of the
/// command channel, and the latency sink to feed once per invocation.
pub struct BackendSetup {
    /// The consumer end of the command channel; the backend hands it to the
    /// mixer it drives.
    pub mixer_cons: Receiver<MixerCommand>,
    /// The latency ring the backend records into on every period.
    pub latency_rec: LatencyRecorder,
}

/// The contract a hardware audio backend implements. It owns the device
/// stream, invokes the mixer once per hardware period, and records the
/// elapsed time into the latency recorder on every invocation.
///
/// A backend models three things for its callers: whether its stream has
/// broken, and whether configuring and starting are sure to succeed from
/// its current state. A backend over a fallible device may report the
/// latter two false and promise nothing about success.
pub trait Backend {
    /// Whether the stream has entered a broken state that only a restart
    /// can leave.
    spec fn broken_spec(&self) -> bool;

    /// Whether `setup` is sure to succeed from this state.
    spec fn setup_succeeds(&self) -> bool;

    /// Whether `start` is sure to succeed from this state.
    spec fn start_succeeds(&self) -> bool;

    /// Wires the command intake and latency sink into the device stream;
    /// fails if the device cannot be configured.
    fn setup(&mut self, setup: BackendSetup) -> (r: Result<(), AudioError>)
        ensures
            old(self).setup_succeeds() ==> r is Ok,
            final(self).start_succeeds() == old(self).start_succeeds(),
    ;

    /// Opens or resumes the hardware stream; idempotent, so once it has
    /// succeeded, starting again succeeds too; fails if the device is
    /// unavailable.
    fn start(&mut self) -> (r: Result<(), AudioError>)
        ensures
            old(self).start_succeeds() ==> r is Ok,
            r is Ok ==> final(self).start_succeeds(),
            r is Err ==> final(self).start_succeeds() == old(self).start_succeeds(),
    ;

    /// Non-blocking health poll: reports whether the stream has broken
    /// since last asked, and clears the flag.
    fn consume_broken(&mut self) -> (r: bool)
        ensures
            r == old(self).broken_spec(),
            !final(self).broken_spec(),
            final(self).start_succeeds() == old(self).start_succeeds(),
    ;
}

/// A backend with no hardware and no thread: each `tick` call stands for
/// one hardware callback, so the whole engine runs deterministically.
pub struct StubBackend {
    mixer: Option<Mixer>,
    recorder: Option<LatencyRecorder>,
    started: bool,
    broken: bool,
}

impl StubBackend {
    /// The stub's invariant: whatever engine halves it holds are
    /// well-formed.
    pub closed spec fn wf(&self) -> bool {
        &&& (self.mixer matches Some(m) ==> m.wf())
        &&& (self.recorder matches Some(r) ==> r.wf())
    }

    /// Whether `setup` has wired a mixer in.
    pub closed spec fn engine_wired(&self) -> bool {
        self.mixer is Some
    }

    /// Whether `setup` has wired a latency recorder in.
    pub closed spec fn recorder_wired(&self) -> bool {
        self.recorder is Some
    }

    /// The latency samples recorded so far, oldest first.
    pub closed spec fn recorder_history(&self) -> Seq<u64> {
        match self.recorder {
            Some(r) => r.history(),
            None => Seq::empty(),
        }
    }

    /// The renderers the driven mixer holds, in its order.
    pub closed spec fn mixer_renderers(&self) -> Seq<Renderer> {
        match self.mixer {
            Some(m) => m.renderers(),
            None => Seq::empty(),
        }
    }

    /// A stub with nothing wired in yet.
    pub fn new() -> (r: StubBackend)
        ensures
            r.wf(),
            !r.engine_wired(),
            !r.recorder_wired(),
            !r.broken_spec(),
            r.setup_succeeds(),
            r.start_succeeds(),
    {
        StubBackend { mixer: None, recorder: None, started: false, broken: false }
    }

    /// Wires the command intake and latency sink in: the stub's mixer is
    /// built around the handed-over channel end, and the recorder is kept
    /// with its history intact. This is what `setup` does; the trait
    /// signature cannot carry these clauses, so they live here.
    pub fn wire(&mut self, setup: BackendSetup)
        ensures
            setup.latency_rec.wf() ==> final(self).wf(),
            final(self).engine_wired(),
            final(self).recorder_wired(),
            final(self).mixer_renderers() == Seq::<Renderer>::empty(),
            final(self).recorder_history() == setup.latency_rec.history(),
            final(self).broken_spec() == old(self).broken_spec(),
    {
        self.mixer = Some(Mixer::new(setup.mixer_cons));
        self.recorder = Some(setup.latency_rec);
    }

    /// Marks the stream started, as `start` does; the stub has no device,
    /// so starting cannot fail and touches no engine state.
    pub fn start_stream(&mut self)
        ensures
            final(self).wf() == old(self).wf(),
            final(self).engine_wired() == old(self).engine_wired(),
            final(self).recorder_wired() == old(self).recorder_wired(),
            final(self).mixer_renderers() == old(self).mixer_renderers(),
            final(self).recorder_history() == old(self).recorder_history(),
            final(self).broken_spec() == old(self).broken_spec(),
    {
        self.started = true;
    }

    /// Marks the stream broken, as a device failure would; the next
    /// `consume_broken` reports it once. The engine state is untouched.
    pub fn break_stream(&mut self)
        requires
            old(self).wf(),
        ensures
            final(self).wf(),
            final(self).broken_spec(),
            final(self).engine_wired() == old(self).engine_wired(),
            final(self).recorder_wired() == old(self).recorder_wired(),
            final(self).mixer_renderers() == old(self).mixer_renderers(),
            final(self).recorder_history() == old(self).recorder_history(),
    {
        self.broken = true;
    }

    /// One manual hardware period, exactly as a device callback would act:
    /// the mixer runs one tick (commands drained, every renderer advanced,
    /// frames summed, completed renderers dropped) and the given latency
    /// sample is recorded. Nothing happens before `setup` has wired the
    /// engine in.
    pub fn tick(&mut self, latency_ns: u64) -> (out: Option<Frame>)
        requires
            old(self).wf(),
        ensures
            final(self).wf(),
            out is Some <==> old(self).engine_wired(),
            final(self).engine_wired() == old(self).engine_wired(),
            final(self).recorder_wired() == old(self).recorder_wired(),
            final(self).broken_spec() == old(self).broken_spec(),
            old(self).recorder_wired() ==> final(self).recorder_history() == old(
                self,
            ).recorder_history().push(latency_ns),
            !old(self).recorder_wired() ==> final(self).recorder_history() == old(
                self,
            ).recorder_history(),
            out matches Some(f) ==> exists|
                added: Seq<Renderer>,
                ticked: Seq<Renderer>,
                outs: Seq<Option<Frame>>,
            |
                #[trigger] mixer_ticked_via(
                    old(self).mixer_renderers(),
                    final(self).mixer_renderers(),
                    f,
                    added,
                    ticked,
                    outs,
                ),
            out is Some ==> final(self).mixer_renderers().len() <= old(
                self,
            ).mixer_renderers().len() + CHANNEL_CAP,
            out is None ==> final(self).mixer_renderers() == old(self).mixer_renderers(),
    {
        let ghost pre_rs = self.mixer_renderers();
        let ghost mut wa: Seq<Renderer> = Seq::empty();
        let ghost mut wt: Seq<Renderer> = Seq::empty();
        let ghost mut wo: Seq<Option<Frame>> = Seq::empty();
        let mut out: Option<Frame> = None;
        match &mut self.mixer {
            Some(m) => {
                proof {
                    assert(pre_rs == m.renderers());
                }
                let f = m.tick();
                proof {
                    let (a, t, o) = choose|
                        a: Seq<Renderer>,
                        t: Seq<Renderer>,
                        o: Seq<Option<Frame>>,
                    | mixer_ticked_via(pre_rs, m.renderers(), f, a, t, o);
                    wa = a;
                    wt = t;
                    wo = o;
                }
                out = Some(f);
            },
            None => {},
        }
        match &mut self.recorder {
            Some(r) => r.push(latency_ns),
            None => {},
        }
        proof {
            match out {
                Some(f) => {
                    assert(mixer_ticked_via(
                        old(self).mixer_renderers(),
                        self.mixer_renderers(),
                        f,
                        wa,
                        wt,
                        wo,
                    ));
                },
                None => {},
            }
        }
        out
    }

    /// How many renderers the driven mixer currently holds; zero before
    /// `setup` has wired one in.
    pub fn active_count(&self) -> (r: usize)
        ensures
            r == self.mixer_renderers().len(),
    {
        match &self.mixer {
            Some(m) => m.active_count(),
            None => 0,
        }
    }
}

impl Backend for StubBackend {
    closed spec fn broken_spec(&self) -> bool {
        self.broken
    }

    /// The stub has no device that could refuse configuration.
    open spec fn setup_succeeds(&self) -> bool {
        true
    }

    /// The stub has no device that could be unavailable.
    open spec fn start_succeeds(&self) -> bool {
        true
    }

    /// Builds the mixer around the handed-over command intake and keeps the
    /// latency recorder; never fails. The contracted form is `wire`.
    fn setup(&mut self, setup: BackendSetup) -> (r: Result<(), AudioError>) {
        self.wire(setup);
        Ok(())
    }

    /// Never fails: there is no device to be unavailable. The contracted
    /// form is `start_stream`.
    fn start(&mut self) -> (r: Result<(), AudioError>) {
        self.start_stream();
        Ok(())
    }

    fn consume_broken(&mut self) -> (r: bool) {
        let b = self.broken;
        self.broken = false;
        b
    }
}

} // verus!
