//! The mixer: the audio-callback half of the engine.
//!
//! Once per hardware tick the mixer drains pending control commands from the
//! bounded channel, asks every active renderer for its next frame, sums the
//! frames with wrapping arithmetic (so the result does not depend on the
//! processing order), and drops every renderer that reported completion.
use crate::channel::{recv, Receiver};
use crate::frame::{frame_add, Frame};
use crate::renderer::{
    music_ticked, sfx_ticked, MusicRenderer, SfxPhase, SfxRenderer,
};
use vstd::prelude::*;

verus! {

/// Capacity of the control-to-audio command channel, and the most commands
/// one tick will drain: the callback's work stays bounded.
pub const CHANNEL_CAP: usize = 16;

/// A sound source of either kind, owned by the audio context once
/// registered.
pub enum Renderer {
    /// A one-shot sound effect.
    Sfx(SfxRenderer),
    /// A seekable, pausable music track.
    Music(MusicRenderer),
}

/// A command crossing from the control context to the audio context.
pub enum MixerCommand {
    /// Hand a renderer over to the mixer's active set.
    AddRenderer(Renderer),
}

/// The silent frame, the unit of mixing.
pub open spec fn silence() -> Frame {
    Frame { left: 0, right: 0 }
}

/// The wrapping sum of a tick's produced frames, in processing order; a
/// renderer that produced nothing contributes silence.
pub open spec fn fold_outputs(outs: Seq<Option<Frame>>) -> Frame
    decreases outs.len(),
{
    if outs.len() == 0 {
        silence()
    } else {
        frame_add(
            fold_outputs(outs.drop_last()),
            match outs.last() {
                Some(f) => f,
                None => silence(),
            },
        )
    }
}

/// The renderers a tick retains: the ticked ones that did not complete, in
/// processing order.
pub open spec fn keep_active(ticked: Seq<Renderer>) -> Seq<Renderer>
    decreases ticked.len(),
{
    if ticked.len() == 0 {
        Seq::empty()
    } else {
        let pre = keep_active(ticked.drop_last());
        if ticked.last().completed_spec() {
            pre
        } else {
            pre.push(ticked.last())
        }
    }
}

/// One way a mixer tick can have gone: `added` renderers were adopted from
/// the channel (already activated), every renderer of the resulting set was
/// ticked once, the outputs were summed in processing order, and the
/// completed renderers were dropped.
pub open spec fn mixer_ticked_via(
    pre: Seq<Renderer>,
    post: Seq<Renderer>,
    out: Frame,
    added: Seq<Renderer>,
    ticked: Seq<Renderer>,
    outs: Seq<Option<Frame>>,
) -> bool {
    let mid = pre + added;
    &&& ticked.len() == mid.len()
    &&& outs.len() == mid.len()
    &&& (forall|i: int| 0 <= i < mid.len() ==> renderer_ticked(mid[i], ticked[i], outs[i]))
    &&& post == keep_active(ticked)
    &&& out == fold_outputs(outs)
}

/// The tick relation of a renderer of either kind.
pub open spec fn renderer_ticked(pre: Renderer, post: Renderer, out: Option<Frame>) -> bool {
    match pre {
        Renderer::Sfx(a) => post matches Renderer::Sfx(b) && sfx_ticked(a, b, out),
        Renderer::Music(a) => post matches Renderer::Music(b) && music_ticked(a, b, out),
    }
}

impl Renderer {
    /// Whether this renderer has reported completion.
    pub open spec fn completed_spec(&self) -> bool {
        match self {
            Renderer::Sfx(s) => s.model().phase == SfxPhase::Completed,
            Renderer::Music(m) => m.model().completed,
        }
    }

    /// Whether the mixer should drop this renderer.
    pub fn is_completed(&self) -> (r: bool)
        ensures
            r == self.completed_spec(),
    {
        match self {
            Renderer::Sfx(s) => s.is_completed(),
            Renderer::Music(m) => m.is_completed(),
        }
    }

    /// Registration with the mixer: an idle effect becomes active; music is
    /// active from construction.
    pub fn activate(&mut self)
        ensures
            final(self).completed_spec() == old(self).completed_spec(),
    {
        match self {
            Renderer::Sfx(s) => s.activate(),
            Renderer::Music(_) => {},
        }
    }

    /// One audio tick of this renderer.
    pub fn tick(&mut self) -> (out: Option<Frame>)
        ensures
            renderer_ticked(*old(self), *final(self), out),
    {
        match self {
            Renderer::Sfx(s) => s.tick(),
            Renderer::Music(m) => m.tick(),
        }
    }
}

/// The set of currently-active renderers and the command intake.
pub struct Mixer {
    renderers: Vec<Renderer>,
    receiver: Receiver<MixerCommand>,
}

impl Mixer {
    /// The mixer's invariant: no retained renderer is completed.
    pub closed spec fn wf(&self) -> bool {
        forall|i: int|
            0 <= i < self.renderers@.len() ==> !(#[trigger] self.renderers@[i]).completed_spec()
    }

    /// How many renderers are active.
    pub open spec fn renderer_count(&self) -> int {
        self.renderers().len() as int
    }

    /// The active renderers, in their current order.
    pub closed spec fn renderers(&self) -> Seq<Renderer> {
        self.renderers@
    }

    /// A mixer draining the given command intake, with no active renderers.
    pub fn new(receiver: Receiver<MixerCommand>) -> (r: Mixer)
        ensures
            r.wf(),
            r.renderer_count() == 0,
    {
        Mixer { renderers: Vec::new(), receiver }
    }

    /// How many renderers are active.
    pub fn active_count(&self) -> (r: usize)
        ensures
            r == self.renderer_count(),
    {
        self.renderers.len()
    }

    /// One audio tick: drains pending commands (bounded by `CHANNEL_CAP`, so
    /// a renderer added this tick contributes to this tick's output),
    /// advances every active renderer, sums their frames, and drops the
    /// completed ones.
    pub fn tick(&mut self) -> (out: Frame)
        requires
            old(self).wf(),
        ensures
            final(self).wf(),
            final(self).renderer_count() <= old(self).renderer_count() + CHANNEL_CAP,
            exists|added: Seq<Renderer>, ticked: Seq<Renderer>, outs: Seq<Option<Frame>>|
                #[trigger] mixer_ticked_via(
                    old(self).renderers(),
                    final(self).renderers(),
                    out,
                    added,
                    ticked,
                    outs,
                ),
    {
        let ghost mut added: Seq<Renderer> = Seq::empty();
        let mut k: usize = 0;
        while k < CHANNEL_CAP
            invariant
                self.wf(),
                k <= CHANNEL_CAP,
                added.len() <= k,
                self.renderers@ == old(self).renderers@ + added,
            decreases CHANNEL_CAP - k,
        {
            match recv(&mut self.receiver) {
                Some(MixerCommand::AddRenderer(adopted)) => {
                    let mut adopted = adopted;
                    adopted.activate();
                    if !adopted.is_completed() {
                        self.renderers.push(adopted);
                        proof {
                            added = added.push(adopted);
                            assert(self.renderers@ == old(self).renderers@ + added);
                        }
                    }
                },
                None => { break },
            }
            k = k + 1;
        }
        let ghost mid = self.renderers@;
        let ghost mut ticked: Seq<Renderer> = Seq::empty();
        let ghost mut outs: Seq<Option<Frame>> = Seq::empty();
        let ghost mut j: int = 0;
        let mut pending: Vec<Renderer> = Vec::new();
        core::mem::swap(&mut pending, &mut self.renderers);
        let mut out = Frame::silence();
        proof {
            assert(pending@ =~= mid.skip(0));
        }
        while pending.len() > 0
            invariant
                self.wf(),
                0 <= j <= mid.len(),
                pending@ == mid.skip(j),
                ticked.len() == j,
                outs.len() == j,
                forall|i: int| 0 <= i < j ==> renderer_ticked(mid[i], ticked[i], outs[i]),
                self.renderers@ == keep_active(ticked),
                out == fold_outputs(outs),
                self.renderers@.len() <= j,
            decreases pending@.len(),
        {
            let mut r = pending.remove(0);
            proof {
                assert(r == mid[j]);
                assert(pending@ =~= mid.skip(j + 1));
            }
            let o = r.tick();
            match o {
                Some(f) => {
                    out = out.add(f);
                },
                None => {},
            }
            proof {
                assert(outs.push(o).drop_last() =~= outs);
                assert(ticked.push(r).drop_last() =~= ticked);
                outs = outs.push(o);
                ticked = ticked.push(r);
                j = j + 1;
            }
            if !r.is_completed() {
                self.renderers.push(r);
            }
        }
        proof {
            assert(ticked.len() == mid.len());
            assert(mixer_ticked_via(old(self).renderers(), self.renderers(), out, added, ticked, outs));
        }
        out
    }
}

} // verus!
