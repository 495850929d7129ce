//! Playback state machines: one-shot sound effects and seekable music.
//!
//! A renderer is asked once per audio-callback tick for its next output
//! frame, and signals completion once its clip is exhausted. Control handles
//! (`Sfx`, `Music`) live on the control thread and talk to their renderer
//! only through a bounded non-blocking command channel; the music playback
//! position additionally flows back through a shared atomic cell.
use crate::channel::{channel, recv, send, Receiver, Sender};
use crate::clip::AudioClip;
use crate::frame::{frame_scale, frame_lerp, lemma_lerp_in_range, Frame, AMP_ONE, FRAC_ONE};
use crate::{buffer_is_full, AudioError};
use std::sync::atomic::{AtomicU64, Ordering};
use std::sync::Arc;
use vstd::prelude::*;

verus! {

/// Capacity of a music renderer's own command channel.
pub const MUSIC_QUEUE_CAP: usize = 16;

/// Command queue capacity of a sound effect built without an explicit one.
pub const DEFAULT_SFX_QUEUE_CAP: usize = 16;

/// Parameters of one sound-effect playback request.
#[derive(Clone, Copy, Debug, PartialEq, Eq, Structural)]
pub struct PlaySfxParams {
    /// Volume multiplier in units of `AMP_ONE`.
    pub amplifier: u32,
}

impl Default for PlaySfxParams {
    /// Unit volume.
    fn default() -> (r: Self)
        ensures
            r.amplifier == AMP_ONE,
    {
        PlaySfxParams { amplifier: AMP_ONE }
    }
}

/// Construction-time settings of a music renderer.
#[derive(Clone, Copy, Debug, PartialEq, Eq, Structural)]
pub struct MusicParams {
    /// Playback rate in units of `FRAC_ONE`: the cursor advances this many
    /// fixed-point samples per tick.
    pub playback_rate: u64,
    /// Volume multiplier in units of `AMP_ONE`.
    pub amplifier: u32,
    /// Whether the renderer starts paused, waiting for `play`.
    pub paused: bool,
}

impl Default for MusicParams {
    /// Unit rate and volume, starting paused until `play` is requested.
    fn default() -> (r: Self)
        ensures
            r.playback_rate == FRAC_ONE,
            r.amplifier == AMP_ONE,
            r.paused,
    {
        MusicParams { playback_rate: FRAC_ONE, amplifier: AMP_ONE, paused: true }
    }
}

/// Where a one-shot effect stands in its life cycle.
#[derive(Clone, Copy, Debug, PartialEq, Eq, Structural)]
pub enum SfxPhase {
    /// Constructed, not yet registered with the mixer.
    Idle,
    /// Registered and advancing tick by tick.
    Active,
    /// The cursor reached the clip end; the mixer drops the renderer.
    Completed,
}

/// The observable state of a sound-effect renderer.
pub ghost struct SfxModel {
    pub phase: SfxPhase,
    pub playing: bool,
    pub cursor: int,
    pub amplifier: u32,
}

/// A play request restarts the cursor with the requested volume.
pub open spec fn sfx_restart(m: SfxModel, amplifier: u32) -> SfxModel {
    SfxModel { playing: true, cursor: 0, amplifier, ..m }
}

/// Applying a queue of play requests in order: the last one wins.
pub open spec fn sfx_apply_all(m: SfxModel, amps: Seq<u32>) -> SfxModel
    decreases amps.len(),
{
    if amps.len() == 0 {
        m
    } else {
        sfx_apply_all(sfx_restart(m, amps[0]), amps.skip(1))
    }
}

/// One tick of the sound-effect state machine: while active and playing the
/// cursor advances one sample, and the renderer completes on the very tick
/// that consumes the final sample.
pub open spec fn sfx_step(m: SfxModel, len: int) -> SfxModel {
    if m.phase == SfxPhase::Active && m.playing {
        if m.cursor < len {
            SfxModel {
                phase: if m.cursor + 1 == len {
                    SfxPhase::Completed
                } else {
                    SfxPhase::Active
                },
                cursor: m.cursor + 1,
                ..m
            }
        } else {
            SfxModel { phase: SfxPhase::Completed, ..m }
        }
    } else {
        m
    }
}

/// `n` ticks of the sound-effect state machine.
pub open spec fn sfx_step_n(m: SfxModel, len: int, n: nat) -> SfxModel
    decreases n,
{
    if n == 0 {
        m
    } else {
        sfx_step_n(sfx_step(m, len), len, (n - 1) as nat)
    }
}

/// The frame a sound-effect renderer contributes on one tick.
pub open spec fn sfx_out(m: SfxModel, frames: Seq<Frame>) -> Option<Frame> {
    if m.phase == SfxPhase::Active && m.playing && m.cursor < frames.len() {
        Some(frame_scale(frames[m.cursor], m.amplifier))
    } else {
        None
    }
}

/// One way a sound-effect tick can have gone: the queued play requests
/// `amps` were applied first, then the machine stepped once.
pub open spec fn sfx_ticked_via(
    pre: SfxRenderer,
    post: SfxRenderer,
    out: Option<Frame>,
    amps: Seq<u32>,
) -> bool {
    let mid = sfx_apply_all(pre.model(), amps);
    &&& post.model() == sfx_step(mid, pre.clip().frames().len() as int)
    &&& out == sfx_out(mid, pre.clip().frames())
}

/// The tick relation of a sound-effect renderer: some queued play requests
/// were applied first, then the machine stepped once.
pub open spec fn sfx_ticked(pre: SfxRenderer, post: SfxRenderer, out: Option<Frame>) -> bool {
    exists|amps: Seq<u32>| #[trigger] sfx_ticked_via(pre, post, out, amps)
}

/// The audio-thread half of a sound effect.
pub struct SfxRenderer {
    clip: AudioClip,
    receiver: Receiver<PlaySfxParams>,
    queue_cap: usize,
    phase: SfxPhase,
    playing: bool,
    cursor: usize,
    amplifier: u32,
}

/// The control-thread handle of a sound effect.
pub struct Sfx {
    sender: Sender<PlaySfxParams>,
}

impl Sfx {
    /// Builds a handle/renderer pair over a fresh bounded command channel of
    /// `buffer_size` slots (a missing or zero size falls back to
    /// `DEFAULT_SFX_QUEUE_CAP`). The renderer idles until the mixer
    /// registers it.
    pub fn new(clip: AudioClip, buffer_size: Option<usize>) -> (r: (Sfx, SfxRenderer))
        ensures
            r.1.model() == (SfxModel {
                phase: SfxPhase::Idle,
                playing: false,
                cursor: 0,
                amplifier: AMP_ONE,
            }),
            r.1.clip() == clip,
    {
        let cap: usize = match buffer_size {
            Some(n) => if n >= 1 {
                n
            } else {
                DEFAULT_SFX_QUEUE_CAP
            },
            None => DEFAULT_SFX_QUEUE_CAP,
        };
        let (sender, receiver) = channel(cap);
        (
            Sfx { sender },
            SfxRenderer {
                clip,
                receiver,
                queue_cap: cap,
                phase: SfxPhase::Idle,
                playing: false,
                cursor: 0,
                amplifier: AMP_ONE,
            },
        )
    }

    /// Requests playback at the given volume. Never blocks: a full command
    /// queue means the caller is issuing requests faster than the audio
    /// thread drains them, and the request is dropped with `BufferFull`.
    pub fn play(&mut self, params: PlaySfxParams) -> (r: Result<(), AudioError>)
        ensures
            r matches Err(e) ==> e == AudioError::BufferFull,
    {
        match send(&mut self.sender, params) {
            Ok(()) => Ok(()),
            Err(rejected) => Err(buffer_is_full(rejected)),
        }
    }
}

impl SfxRenderer {
    /// The clip this effect plays.
    pub closed spec fn clip(&self) -> AudioClip {
        self.clip
    }

    /// The renderer's observable state.
    pub closed spec fn model(&self) -> SfxModel {
        SfxModel {
            phase: self.phase,
            playing: self.playing,
            cursor: self.cursor as int,
            amplifier: self.amplifier,
        }
    }

    /// Registration with the mixer: an idle effect becomes active.
    pub fn activate(&mut self)
        ensures
            final(self).model() == (SfxModel {
                phase: if old(self).model().phase == SfxPhase::Idle {
                    SfxPhase::Active
                } else {
                    old(self).model().phase
                },
                ..old(self).model()
            }),
            final(self).clip() == old(self).clip(),
    {
        if matches!(self.phase, SfxPhase::Idle) {
            self.phase = SfxPhase::Active;
        }
    }

    /// Whether the mixer should drop this renderer.
    pub fn is_completed(&self) -> (r: bool)
        ensures
            r == (self.model().phase == SfxPhase::Completed),
    {
        matches!(self.phase, SfxPhase::Completed)
    }

    /// One audio tick: drains pending play requests, then advances the state
    /// machine one sample and hands back the frame it produced, if any.
    pub fn tick(&mut self) -> (out: Option<Frame>)
        ensures
            final(self).clip() == old(self).clip(),
            sfx_ticked(*old(self), *final(self), out),
    {
        let ghost m0 = self.model();
        let ghost mut amps: Seq<u32> = Seq::empty();
        let cap = self.queue_cap;
        let mut k: usize = 0;
        while k < cap
            invariant
                self.clip == old(self).clip,
                self.queue_cap == old(self).queue_cap,
                self.model() == sfx_apply_all(m0, amps),
            decreases cap - k,
        {
            match recv(&mut self.receiver) {
                Some(p) => {
                    proof {
                        lemma_sfx_apply_snoc(m0, amps, p.amplifier);
                        amps = amps.push(p.amplifier);
                    }
                    self.playing = true;
                    self.cursor = 0;
                    self.amplifier = p.amplifier;
                },
                None => { break },
            }
            k = k + 1;
        }
        let out = self.advance();
        proof {
            assert(sfx_ticked_via(*old(self), *self, out, amps));
        }
        out
    }

    /// Advances the state machine one tick with no pending requests.
    fn advance(&mut self) -> (out: Option<Frame>)
        ensures
            final(self).clip() == old(self).clip(),
            final(self).queue_cap == old(self).queue_cap,
            final(self).model() == sfx_step(old(self).model(), old(self).clip().frames().len() as int),
            out == sfx_out(old(self).model(), old(self).clip().frames()),
    {
        if !matches!(self.phase, SfxPhase::Active) || !self.playing {
            return None;
        }
        let len = self.clip.frame_count();
        if self.cursor < len {
            proof {
                use_type_invariant(&self.clip);
            }
            let f = self.clip.frame_at(self.cursor).scale(self.amplifier);
            self.cursor = self.cursor + 1;
            if self.cursor == len {
                self.phase = SfxPhase::Completed;
            }
            Some(f)
        } else {
            self.phase = SfxPhase::Completed;
            None
        }
    }
}

/// Applying one more play request after a queue of them.
proof fn lemma_sfx_apply_snoc(m: SfxModel, amps: Seq<u32>, a: u32)
    ensures
        sfx_apply_all(m, amps.push(a)) == sfx_restart(sfx_apply_all(m, amps), a),
    decreases amps.len(),
{
    if amps.len() == 0 {
        assert(amps.push(a)[0] == a);
        assert(amps.push(a).skip(1) =~= Seq::<u32>::empty());
        assert(sfx_apply_all(m, amps.push(a)) == sfx_apply_all(
            sfx_restart(m, a),
            amps.push(a).skip(1),
        ));
        assert(sfx_apply_all(sfx_restart(m, a), Seq::<u32>::empty()) == sfx_restart(m, a));
        assert(sfx_apply_all(m, amps) == m);
    } else {
        assert(amps.push(a)[0] == amps[0]);
        assert(amps.push(a).skip(1) =~= amps.skip(1).push(a));
        lemma_sfx_apply_snoc(sfx_restart(m, amps[0]), amps.skip(1), a);
        assert(sfx_apply_all(m, amps.push(a)) == sfx_apply_all(
            sfx_restart(m, amps[0]),
            amps.skip(1).push(a),
        ));
        assert(sfx_apply_all(m, amps) == sfx_apply_all(sfx_restart(m, amps[0]), amps.skip(1)));
    }
}

/// A completed effect stays completed, whatever ticks follow.
proof fn lemma_sfx_completed_absorbs(m: SfxModel, len: int, n: nat)
    requires
        m.phase == SfxPhase::Completed,
    ensures
        sfx_step_n(m, len, n) == m,
    decreases n,
{
    if n > 0 {
        lemma_sfx_completed_absorbs(m, len, (n - 1) as nat);
    }
}

/// Running a playing, active effect from a cursor inside the clip: it stays
/// active, one sample per tick, until the tick that consumes the last
/// sample, and from then on it is completed at the clip end.
proof fn lemma_sfx_run(m: SfxModel, len: int, n: nat)
    requires
        m.phase == SfxPhase::Active,
        m.playing,
        0 <= m.cursor < len,
    ensures
        sfx_step_n(m, len, n) == if m.cursor + n < len {
            SfxModel { cursor: m.cursor + n, ..m }
        } else {
            SfxModel { phase: SfxPhase::Completed, cursor: len, ..m }
        },
    decreases n,
{
    if n > 0 {
        let m1 = sfx_step(m, len);
        if m.cursor + 1 == len {
            lemma_sfx_completed_absorbs(m1, len, (n - 1) as nat);
        } else {
            lemma_sfx_run(m1, len, (n - 1) as nat);
        }
    }
}

/// A playing one-shot effect reaches `Completed` exactly after as many ticks
/// as its clip has frames, counted from the tick it became active: never
/// earlier and never later.
pub proof fn lemma_sfx_completes_exactly(m: SfxModel, len: int, n: nat)
    requires
        m.phase == SfxPhase::Active,
        m.playing,
        m.cursor == 0,
        len >= 1,
    ensures
        sfx_step_n(m, len, n).phase == SfxPhase::Completed <==> n >= len,
{
    lemma_sfx_run(m, len, n);
}

/// A control request to a music renderer.
pub enum MusicCommand {
    /// Resume playback.
    Play,
    /// Freeze the cursor; the renderer stays in the active set.
    Pause,
    /// Jump to an absolute time in units of `1 / FRAC_ONE` seconds.
    SeekTo(u64),
    /// Change the volume multiplier, in units of `AMP_ONE`.
    SetAmplifier(u32),
}

/// The observable state of a music renderer.
pub ghost struct MusicModel {
    pub paused: bool,
    pub completed: bool,
    pub cursor: int,
    pub rate: int,
    pub amplifier: u32,
}

/// The cursor a seek lands on: the requested time times the sample rate, in
/// fixed-point samples, clamped to the clip end.
pub open spec fn music_seek_cursor(t: int, rate_hz: int, len: int) -> int {
    if t * rate_hz <= len * (FRAC_ONE as int) {
        t * rate_hz
    } else {
        len * (FRAC_ONE as int)
    }
}

/// The time a cursor reads back as, in units of `1 / FRAC_ONE` seconds.
pub open spec fn cursor_time(cursor: int, rate_hz: int) -> int {
    cursor / rate_hz
}

/// One control request applied to the state; a completed renderer is past
/// control.
pub open spec fn music_apply(m: MusicModel, cmd: MusicCommand, rate_hz: int, len: int) -> MusicModel {
    if m.completed {
        m
    } else {
        match cmd {
            MusicCommand::Play => MusicModel { paused: false, ..m },
            MusicCommand::Pause => MusicModel { paused: true, ..m },
            MusicCommand::SeekTo(t) => MusicModel {
                cursor: music_seek_cursor(t as int, rate_hz, len),
                ..m
            },
            MusicCommand::SetAmplifier(a) => MusicModel { amplifier: a, ..m },
        }
    }
}

/// A queue of control requests applied in order.
pub open spec fn music_apply_all(
    m: MusicModel,
    cmds: Seq<MusicCommand>,
    rate_hz: int,
    len: int,
) -> MusicModel
    decreases cmds.len(),
{
    if cmds.len() == 0 {
        m
    } else {
        music_apply_all(music_apply(m, cmds[0], rate_hz, len), cmds.skip(1), rate_hz, len)
    }
}

/// One tick of the music state machine: paused or completed states are
/// frozen; otherwise the cursor advances by the playback rate, clamped to
/// the clip end, and reaching the end completes the renderer.
pub open spec fn music_step(m: MusicModel, len: int) -> MusicModel {
    let end = len * (FRAC_ONE as int);
    if m.completed || m.paused {
        m
    } else if m.cursor >= end {
        MusicModel { completed: true, ..m }
    } else {
        let c2 = if m.cursor + m.rate >= end {
            end
        } else {
            m.cursor + m.rate
        };
        MusicModel { cursor: c2, completed: c2 >= end, ..m }
    }
}

/// `n` ticks of the music state machine.
pub open spec fn music_step_n(m: MusicModel, len: int, n: nat) -> MusicModel
    decreases n,
{
    if n == 0 {
        m
    } else {
        music_step_n(music_step(m, len), len, (n - 1) as nat)
    }
}

/// The source frame at a fractional cursor: the two bracketing samples,
/// linearly interpolated (the clip's last sample brackets itself).
pub open spec fn music_sample(frames: Seq<Frame>, cursor: int) -> Frame {
    let i = cursor / (FRAC_ONE as int);
    let frac = cursor % (FRAC_ONE as int);
    let a = frames[i];
    let b = if i + 1 < frames.len() {
        frames[i + 1]
    } else {
        frames[i]
    };
    frame_lerp(a, b, frac)
}

/// The frame a music renderer contributes on one tick.
pub open spec fn music_out(m: MusicModel, frames: Seq<Frame>) -> Option<Frame> {
    if !m.completed && !m.paused && m.cursor < frames.len() * (FRAC_ONE as int) {
        Some(frame_scale(music_sample(frames, m.cursor), m.amplifier))
    } else {
        None
    }
}

/// One way a music tick can have gone: the queued control requests `cmds`
/// were applied first, then the machine stepped once.
pub open spec fn music_ticked_via(
    pre: MusicRenderer,
    post: MusicRenderer,
    out: Option<Frame>,
    cmds: Seq<MusicCommand>,
) -> bool {
    let rate_hz = pre.clip().rate() as int;
    let len = pre.clip().frames().len() as int;
    let mid = music_apply_all(pre.model(), cmds, rate_hz, len);
    &&& post.model() == music_step(mid, len)
    &&& out == music_out(mid, pre.clip().frames())
}

/// The tick relation of a music renderer.
pub open spec fn music_ticked(pre: MusicRenderer, post: MusicRenderer, out: Option<Frame>) -> bool {
    exists|cmds: Seq<MusicCommand>| #[trigger] music_ticked_via(pre, post, out, cmds)
}

/// The audio-thread half of a music track.
pub struct MusicRenderer {
    clip: AudioClip,
    receiver: Receiver<MusicCommand>,
    paused: bool,
    completed: bool,
    cursor: u64,
    rate: u64,
    amplifier: u32,
    position_cell: Arc<AtomicU64>,
}

/// The control-thread handle of a music track.
pub struct Music {
    sender: Sender<MusicCommand>,
    position_cell: Arc<AtomicU64>,
    sample_rate: u32,
    paused: bool,
}

impl Music {
    /// Builds a handle/renderer pair over a fresh bounded command channel
    /// and a shared position cell.
    pub fn new(clip: AudioClip, settings: MusicParams) -> (r: (Music, MusicRenderer))
        ensures
            r.1.model() == (MusicModel {
                paused: settings.paused,
                completed: false,
                cursor: 0,
                rate: settings.playback_rate as int,
                amplifier: settings.amplifier,
            }),
            r.1.clip() == clip,
            r.0.paused_spec() == settings.paused,
    {
        let (sender, receiver) = channel(MUSIC_QUEUE_CAP);
        let cell: Arc<AtomicU64> = Arc::new(AtomicU64::new(0));
        proof {
            use_type_invariant(&clip);
        }
        let sample_rate = clip.sample_rate();
        (
            Music { sender, position_cell: crate::share_arc(&cell), sample_rate, paused: settings.paused },
            MusicRenderer {
                clip,
                receiver,
                paused: settings.paused,
                completed: false,
                cursor: 0,
                rate: settings.playback_rate,
                amplifier: settings.amplifier,
                position_cell: cell,
            },
        )
    }

    /// Whether this handle last asked the renderer to pause.
    pub closed spec fn paused_spec(&self) -> bool {
        self.paused
    }

    /// Whether this handle last asked the renderer to pause; a fresh handle
    /// reports its construction-time setting.
    pub fn paused(&self) -> (r: bool)
        ensures
            r == self.paused_spec(),
    {
        self.paused
    }

    /// Resumes playback. Fails with `BufferFull` when the command queue is
    /// full; the request is dropped, never retried.
    pub fn play(&mut self) -> (r: Result<(), AudioError>)
        ensures
            r matches Err(e) ==> e == AudioError::BufferFull,
            r is Ok ==> !final(self).paused_spec(),
            r is Err ==> final(self).paused_spec() == old(self).paused_spec(),
    {
        match send(&mut self.sender, MusicCommand::Play) {
            Ok(()) => {
                self.paused = false;
                Ok(())
            },
            Err(rejected) => Err(buffer_is_full(rejected)),
        }
    }

    /// Freezes the cursor until `play`. Fails with `BufferFull` when the
    /// command queue is full.
    pub fn pause(&mut self) -> (r: Result<(), AudioError>)
        ensures
            r matches Err(e) ==> e == AudioError::BufferFull,
            r is Ok ==> final(self).paused_spec(),
            r is Err ==> final(self).paused_spec() == old(self).paused_spec(),
    {
        match send(&mut self.sender, MusicCommand::Pause) {
            Ok(()) => {
                self.paused = true;
                Ok(())
            },
            Err(rejected) => Err(buffer_is_full(rejected)),
        }
    }

    /// Asks the renderer to jump to an absolute time in units of
    /// `1 / FRAC_ONE` seconds; out-of-range times clamp to the clip end.
    /// Fails with `BufferFull` when the command queue is full.
    pub fn seek_to(&mut self, time: u64) -> (r: Result<(), AudioError>)
        ensures
            r matches Err(e) ==> e == AudioError::BufferFull,
    {
        match send(&mut self.sender, MusicCommand::SeekTo(time)) {
            Ok(()) => Ok(()),
            Err(rejected) => Err(buffer_is_full(rejected)),
        }
    }

    /// Asks the renderer to change its volume, in units of `AMP_ONE`, taking
    /// effect on its next tick. Fails with `BufferFull` when the command
    /// queue is full.
    pub fn set_amplifier(&mut self, volume: u32) -> (r: Result<(), AudioError>)
        ensures
            r matches Err(e) ==> e == AudioError::BufferFull,
    {
        match send(&mut self.sender, MusicCommand::SetAmplifier(volume)) {
            Ok(()) => Ok(()),
            Err(rejected) => Err(buffer_is_full(rejected)),
        }
    }

    /// The playback position in units of `1 / FRAC_ONE` seconds, read from
    /// the shared cell the renderer publishes its cursor into on every tick;
    /// it never blocks the audio thread, and is eventually consistent with
    /// the renderer's true cursor.
    pub fn position(&self) -> u64 {
        let cursor = self.position_cell.load(Ordering::SeqCst);
        let rate: u32 = if self.sample_rate >= 1 {
            self.sample_rate
        } else {
            1
        };
        cursor_to_time(cursor, rate)
    }
}

impl MusicRenderer {
    /// The clip this track plays.
    pub closed spec fn clip(&self) -> AudioClip {
        self.clip
    }

    /// The renderer's observable state.
    pub closed spec fn model(&self) -> MusicModel {
        MusicModel {
            paused: self.paused,
            completed: self.completed,
            cursor: self.cursor as int,
            rate: self.rate as int,
            amplifier: self.amplifier,
        }
    }

    /// Whether the mixer should drop this renderer.
    pub fn is_completed(&self) -> (r: bool)
        ensures
            r == self.model().completed,
    {
        self.completed
    }

    /// One audio tick: drains pending control requests, advances the state
    /// machine, publishes the cursor for `position`, and hands back the
    /// frame it produced, if any.
    pub fn tick(&mut self) -> (out: Option<Frame>)
        ensures
            final(self).clip() == old(self).clip(),
            music_ticked(*old(self), *final(self), out),
    {
        let ghost m0 = self.model();
        let ghost mut cmds: Seq<MusicCommand> = Seq::empty();
        let ghost rate_hz = self.clip.rate() as int;
        let ghost len = self.clip.frames().len() as int;
        let mut k: usize = 0;
        while k < MUSIC_QUEUE_CAP
            invariant
                self.clip == old(self).clip,
                self.position_cell == old(self).position_cell,
                self.model() == music_apply_all(m0, cmds, rate_hz, len),
                rate_hz == self.clip.rate() as int,
                len == self.clip.frames().len() as int,
            decreases MUSIC_QUEUE_CAP - k,
        {
            match recv(&mut self.receiver) {
                Some(cmd) => {
                    proof {
                        lemma_music_apply_snoc(m0, cmds, cmd, rate_hz, len);
                        cmds = cmds.push(cmd);
                    }
                    self.apply_command(cmd);
                },
                None => { break },
            }
            k = k + 1;
        }
        let out = self.advance();
        let cursor = self.cursor;
        self.position_cell.store(cursor, Ordering::SeqCst);
        proof {
            assert(music_ticked_via(*old(self), *self, out, cmds));
        }
        out
    }

    /// Applies one control request to the state.
    fn apply_command(&mut self, cmd: MusicCommand)
        ensures
            final(self).clip() == old(self).clip(),
            final(self).position_cell == old(self).position_cell,
            final(self).receiver == old(self).receiver,
            final(self).model() == music_apply(
                old(self).model(),
                cmd,
                old(self).clip().rate() as int,
                old(self).clip().frames().len() as int,
            ),
    {
        if self.completed {
            return ;
        }
        match cmd {
            MusicCommand::Play => {
                self.paused = false;
            },
            MusicCommand::Pause => {
                self.paused = true;
            },
            MusicCommand::SeekTo(t) => {
                proof {
                    use_type_invariant(&self.clip);
                }
                let len = self.clip.frame_count() as u64;
                let rate_hz = self.clip.sample_rate();
                let end: u128 = (len as u128) * (FRAC_ONE as u128);
                proof {
                    assert((t as int) * (rate_hz as int) <= 0xffff_ffff_ffff_ffffint * 0xffff_ffff)
                        by (nonlinear_arith)
                        requires
                            0 <= t <= 0xffff_ffff_ffff_ffffu64,
                            0 <= rate_hz <= 0xffff_ffffu32,
                    ;
                }
                let target: u128 = (t as u128) * (rate_hz as u128);
                proof {
                    assert((len as int) * (FRAC_ONE as int) <= 0xffff_ffffint * 0x1_0000_0000)
                        by (nonlinear_arith)
                        requires
                            0 <= len <= 0xffff_ffffu64,
                    ;
                }
                self.cursor = if target <= end {
                    target as u64
                } else {
                    end as u64
                };
            },
            MusicCommand::SetAmplifier(a) => {
                self.amplifier = a;
            },
        }
    }

    /// Advances the state machine one tick with no pending requests.
    fn advance(&mut self) -> (out: Option<Frame>)
        ensures
            final(self).clip() == old(self).clip(),
            final(self).position_cell == old(self).position_cell,
            final(self).model() == music_step(
                old(self).model(),
                old(self).clip().frames().len() as int,
            ),
            out == music_out(old(self).model(), old(self).clip().frames()),
    {
        if self.completed || self.paused {
            return None;
        }
        proof {
            use_type_invariant(&self.clip);
        }
        let len = self.clip.frame_count() as u64;
        let end: u128 = (len as u128) * (FRAC_ONE as u128);
        proof {
            assert((len as int) * (FRAC_ONE as int) <= 0xffff_ffffint * 0x1_0000_0000)
                by (nonlinear_arith)
                requires
                    0 <= len <= 0xffff_ffffu64,
            ;
        }
        if (self.cursor as u128) >= end {
            self.completed = true;
            return None;
        }
        let i64_pos: u64 = self.cursor / FRAC_ONE;
        let frac: u64 = self.cursor % FRAC_ONE;
        proof {
            vstd::arithmetic::div_mod::lemma_fundamental_div_mod(self.cursor as int, FRAC_ONE as int);
            vstd::arithmetic::div_mod::lemma_mod_bound(self.cursor as int, FRAC_ONE as int);
            assert((self.cursor as int) / (FRAC_ONE as int) < len as int) by (nonlinear_arith)
                requires
                    (self.cursor as int) < (len as int) * (FRAC_ONE as int),
                    (self.cursor as int) == (FRAC_ONE as int) * ((self.cursor as int) / (
                    FRAC_ONE as int)) + (self.cursor as int) % (FRAC_ONE as int),
                    0 <= (self.cursor as int) % (FRAC_ONE as int) < (FRAC_ONE as int),
                    (self.cursor as int) / (FRAC_ONE as int) >= 0,
            ;
        }
        let idx: usize = i64_pos as usize;
        let a = self.clip.frame_at(idx);
        let b = if idx + 1 < self.clip.frame_count() {
            self.clip.frame_at(idx + 1)
        } else {
            a
        };
        let sample = a.interpolate(&b, frac);
        proof {
            lemma_lerp_in_range(a.left as int, b.left as int, frac as int);
            lemma_lerp_in_range(a.right as int, b.right as int, frac as int);
        }
        let out = sample.scale(self.amplifier);
        let next: u128 = (self.cursor as u128) + (self.rate as u128);
        self.cursor = if next >= end {
            end as u64
        } else {
            next as u64
        };
        if (self.cursor as u128) >= end {
            self.completed = true;
        }
        Some(out)
    }
}

/// Applying one more control request after a queue of them.
proof fn lemma_music_apply_snoc(
    m: MusicModel,
    cmds: Seq<MusicCommand>,
    c: MusicCommand,
    rate_hz: int,
    len: int,
)
    ensures
        music_apply_all(m, cmds.push(c), rate_hz, len) == music_apply(
            music_apply_all(m, cmds, rate_hz, len),
            c,
            rate_hz,
            len,
        ),
    decreases cmds.len(),
{
    if cmds.len() == 0 {
        assert(cmds.push(c)[0] == c);
        assert(cmds.push(c).skip(1) =~= Seq::<MusicCommand>::empty());
        assert(music_apply_all(m, cmds.push(c), rate_hz, len) == music_apply_all(
            music_apply(m, c, rate_hz, len),
            cmds.push(c).skip(1),
            rate_hz,
            len,
        ));
        assert(music_apply_all(music_apply(m, c, rate_hz, len), Seq::<MusicCommand>::empty(), rate_hz, len)
            == music_apply(m, c, rate_hz, len));
        assert(music_apply_all(m, cmds, rate_hz, len) == m);
    } else {
        assert(cmds.push(c)[0] == cmds[0]);
        assert(cmds.push(c).skip(1) =~= cmds.skip(1).push(c));
        lemma_music_apply_snoc(music_apply(m, cmds[0], rate_hz, len), cmds.skip(1), c, rate_hz, len);
        assert(music_apply_all(m, cmds.push(c), rate_hz, len) == music_apply_all(
            music_apply(m, cmds[0], rate_hz, len),
            cmds.skip(1).push(c),
            rate_hz,
            len,
        ));
        assert(music_apply_all(m, cmds, rate_hz, len) == music_apply_all(
            music_apply(m, cmds[0], rate_hz, len),
            cmds.skip(1),
            rate_hz,
            len,
        ));
    }
}

/// Converts a published cursor to the time it reads back as, in units of
/// `1 / FRAC_ONE` seconds.
fn cursor_to_time(cursor: u64, rate_hz: u32) -> (r: u64)
    requires
        rate_hz >= 1,
    ensures
        r == cursor_time(cursor as int, rate_hz as int),
{
    cursor / (rate_hz as u64)
}

/// Seeking to a time within the clip and reading the position back returns
/// exactly that time; seeking past the end reads back as the duration.
pub proof fn lemma_seek_then_position(t: int, rate_hz: int, len: int)
    requires
        rate_hz >= 1,
        t >= 0,
        len >= 0,
    ensures
        t <= len * (FRAC_ONE as int) / rate_hz ==> cursor_time(
            music_seek_cursor(t, rate_hz, len),
            rate_hz,
        ) == t,
        t > len * (FRAC_ONE as int) / rate_hz ==> cursor_time(
            music_seek_cursor(t, rate_hz, len),
            rate_hz,
        ) == len * (FRAC_ONE as int) / rate_hz,
{
    let end = len * (FRAC_ONE as int);
    vstd::arithmetic::div_mod::lemma_fundamental_div_mod(end, rate_hz);
    vstd::arithmetic::div_mod::lemma_mod_bound(end, rate_hz);
    assert(len * 0x1_0000_0000int >= 0) by (nonlinear_arith)
        requires
            len >= 0,
    ;
    if t <= end / rate_hz {
        assert(t * rate_hz <= (end / rate_hz) * rate_hz) by (nonlinear_arith)
            requires
                t <= end / rate_hz,
                rate_hz >= 1,
        ;
        assert((end / rate_hz) * rate_hz <= end) by (nonlinear_arith)
            requires
                end == rate_hz * (end / rate_hz) + end % rate_hz,
                end % rate_hz >= 0,
        ;
        vstd::arithmetic::div_mod::lemma_div_multiples_vanish(t, rate_hz);
        assert(rate_hz * t == t * rate_hz);
    } else {
        assert(t * rate_hz > end) by (nonlinear_arith)
            requires
                t > end / rate_hz,
                rate_hz >= 1,
                end == rate_hz * (end / rate_hz) + end % rate_hz,
                0 <= end % rate_hz < rate_hz,
        ;
    }
}

/// Pausing freezes the position: however many ticks pass while paused, the
/// cursor does not move until `play` is applied again.
pub proof fn lemma_pause_freezes_position(m: MusicModel, len: int, n: nat)
    requires
        m.paused,
    ensures
        music_step_n(m, len, n) == m,
    decreases n,
{
    if n > 0 {
        lemma_pause_freezes_position(m, len, (n - 1) as nat);
    }
}

} // verus!
