//! Immutable, shareable audio clips.
//!
//! A clip is a fixed sequence of stereo frames at a fixed sample rate. The
//! sample buffer sits behind a shared reference-counted handle, so cloning a
//! clip shares the buffer instead of copying the samples. A clip is never
//! mutated after construction.
use crate::frame::{Frame, FRAC_ONE, SAMPLE_LIMIT};
use crate::AudioError;
use std::sync::Arc;
use vstd::prelude::*;

verus! {

/// An immutable handle to a shared buffer of stereo frames.
pub struct AudioClip {
    frames: Arc<Vec<Frame>>,
    sample_rate: u32,
}

/// The signed 16-bit sample stored little-endian in two bytes.
pub open spec fn pcm_sample(lo: u8, hi: u8) -> int {
    let u = lo + 256 * hi;
    if u < 32768 {
        u
    } else {
        u - 65536
    }
}

/// The frames a raw interleaved stereo stream of 16-bit little-endian
/// samples holds: four bytes per frame, each sample scaled by two so that
/// full scale is 65536; trailing bytes short of a frame are dropped.
pub open spec fn pcm_frames(data: Seq<u8>) -> Seq<Frame> {
    Seq::new(
        (data.len() / 4) as nat,
        |i: int|
            Frame {
                left: (2 * pcm_sample(data[4 * i], data[4 * i + 1])) as i64,
                right: (2 * pcm_sample(data[4 * i + 2], data[4 * i + 3])) as i64,
            },
    )
}

/// Every clip frame fits the amplitude bound that scaling relies on.
pub open spec fn frames_bounded(frames: Seq<Frame>) -> bool {
    forall|i: int|
        0 <= i < frames.len() ==> -SAMPLE_LIMIT <= (#[trigger] frames[i]).left <= SAMPLE_LIMIT
            && -SAMPLE_LIMIT <= frames[i].right <= SAMPLE_LIMIT
}

impl AudioClip {
    /// The clip invariant: a positive sample rate, an addressable length and
    /// bounded amplitudes; it holds of every clip value, because `new` is
    /// the only constructor and it checks all three.
    #[verifier::type_invariant]
    pub open spec fn inv(self) -> bool {
        self.rate() >= 1 && self.frames().len() <= u32::MAX && frames_bounded(self.frames())
    }

    /// The sample sequence the clip holds.
    pub closed spec fn frames(&self) -> Seq<Frame> {
        self.frames@
    }

    /// The clip's sample rate in frames per second.
    pub closed spec fn rate(&self) -> u32 {
        self.sample_rate
    }

    /// Builds a clip from decoded frames. Rejects a zero sample rate, a
    /// buffer too long to address, and out-of-range amplitudes.
    pub fn new(frames: Vec<Frame>, sample_rate: u32) -> (r: Result<AudioClip, AudioError>)
        ensures
            match r {
                Ok(c) => {
                    &&& c.frames() == frames@
                    &&& c.rate() == sample_rate
                    &&& sample_rate >= 1
                    &&& frames@.len() <= u32::MAX
                    &&& frames_bounded(frames@)
                },
                Err(e) => {
                    &&& e == AudioError::InvalidClip
                    &&& !(sample_rate >= 1 && frames@.len() <= u32::MAX && frames_bounded(
                        frames@,
                    ))
                },
            },
    {
        if sample_rate == 0 {
            return Err(AudioError::InvalidClip);
        }
        if frames.len() > u32::MAX as usize {
            return Err(AudioError::InvalidClip);
        }
        let mut i: usize = 0;
        while i < frames.len()
            invariant
                i <= frames@.len(),
                forall|j: int|
                    0 <= j < i ==> -SAMPLE_LIMIT <= (#[trigger] frames@[j]).left <= SAMPLE_LIMIT
                        && -SAMPLE_LIMIT <= frames@[j].right <= SAMPLE_LIMIT,
            decreases frames@.len() - i,
        {
            let f = frames[i];
            if f.left < -SAMPLE_LIMIT || f.left > SAMPLE_LIMIT || f.right < -SAMPLE_LIMIT
                || f.right > SAMPLE_LIMIT {
                return Err(AudioError::InvalidClip);
            }
            i += 1;
        }
        Ok(AudioClip { frames: Arc::new(frames), sample_rate })
    }

    /// Builds a clip from raw interleaved 16-bit little-endian stereo PCM
    /// samples, already decoded: real audio-format decoding is an external
    /// collaborator. Trailing bytes short of a full frame are dropped.
    pub fn from_raw_pcm(data: &Vec<u8>, sample_rate: u32) -> (r: Result<AudioClip, AudioError>)
        ensures
            match r {
                Ok(c) => {
                    &&& c.frames() == pcm_frames(data@)
                    &&& c.rate() == sample_rate
                    &&& sample_rate >= 1
                    &&& data@.len() / 4 <= u32::MAX
                },
                Err(e) => {
                    &&& e == AudioError::InvalidClip
                    &&& !(sample_rate >= 1 && data@.len() / 4 <= u32::MAX)
                },
            },
    {
        let n: usize = data.len() / 4;
        proof {
            vstd::arithmetic::div_mod::lemma_fundamental_div_mod(data@.len() as int, 4);
            vstd::arithmetic::div_mod::lemma_mod_bound(data@.len() as int, 4);
        }
        let mut frames: Vec<Frame> = Vec::new();
        let mut j: usize = 0;
        while j < n
            invariant
                data@.len() <= usize::MAX,
                n == data@.len() / 4,
                4 * n <= data@.len(),
                j <= n,
                frames@.len() == j,
                forall|k: int| 0 <= k < j ==> frames@[k] == pcm_frames(data@)[k],
            decreases n - j,
        {
            let base: usize = 4 * j;
            let left = pcm_amplitude(data[base], data[base + 1]);
            let right = pcm_amplitude(data[base + 2], data[base + 3]);
            frames.push(Frame { left, right });
            j += 1;
        }
        proof {
            assert(frames@ =~= pcm_frames(data@));
            assert forall|k: int| 0 <= k < pcm_frames(data@).len() implies -SAMPLE_LIMIT <= (
            #[trigger] pcm_frames(data@)[k]).left <= SAMPLE_LIMIT && -SAMPLE_LIMIT <= pcm_frames(
                data@,
            )[k].right <= SAMPLE_LIMIT by {}
        }
        Self::new(frames, sample_rate)
    }

    /// The number of frames in the clip.
    pub fn frame_count(&self) -> (r: usize)
        ensures
            r == self.frames().len(),
    {
        (*self.frames).len()
    }

    /// The frame at a given cursor position.
    pub fn frame_at(&self, i: usize) -> (r: Frame)
        requires
            i < self.frames().len(),
        ensures
            r == self.frames()[i as int],
    {
        (*self.frames)[i]
    }

    /// The clip's sample rate in frames per second.
    pub fn sample_rate(&self) -> (r: u32)
        ensures
            r == self.rate(),
    {
        self.sample_rate
    }

    /// The clip's duration: frame count over sample rate, as a fixed-point
    /// time in units of `1 / FRAC_ONE` seconds.
    pub fn length(&self) -> (r: u64)
        ensures
            r == self.frames().len() * FRAC_ONE / (self.rate() as int),
    {
        proof {
            use_type_invariant(self);
        }
        let count: u128 = (*self.frames).len() as u128;
        let scaled: u128 = count * (FRAC_ONE as u128);
        let t: u128 = scaled / (self.sample_rate as u128);
        proof {
            assert(count * (FRAC_ONE as int) <= 0xffff_ffffint * 0x1_0000_0000) by (nonlinear_arith)
                requires
                    0 <= count <= 0xffff_ffffu128,
            ;
            vstd::arithmetic::div_mod::lemma_div_is_ordered(
                count as int * (FRAC_ONE as int),
                0xffff_ffffint * 0x1_0000_0000,
                self.sample_rate as int,
            );
            vstd::arithmetic::div_mod::lemma_div_is_ordered(
                0,
                count as int * (FRAC_ONE as int),
                self.sample_rate as int,
            );
        }
        t as u64
    }

    /// A second handle to the same shared sample buffer; no samples are
    /// copied.
    pub fn duplicate(&self) -> (r: AudioClip)
        ensures
            r == *self,
    {
        proof {
            use_type_invariant(self);
        }
        AudioClip { frames: crate::share_arc(&self.frames), sample_rate: self.sample_rate }
    }
}

/// One raw PCM sample as a fixed-point amplitude: the signed 16-bit value,
/// scaled by two so that full scale is 65536.
fn pcm_amplitude(lo: u8, hi: u8) -> (r: i64)
    ensures
        r == 2 * pcm_sample(lo, hi),
{
    let u: u32 = lo as u32 + 256 * (hi as u32);
    if u >= 32768 {
        2 * ((u as i64) - 65536)
    } else {
        2 * (u as i64)
    }
}

} // verus!
