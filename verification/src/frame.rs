//! Stereo sample frames and their fixed-point arithmetic.
//!
//! An amplitude is an `i64`. An amplifier (volume multiplier) is a `u32` in
//! units of `AMP_ONE`; an interpolation fraction is a `u64` in units of
//! `FRAC_ONE`. Mixing sums amplitudes with wrapping arithmetic, which keeps
//! the sum commutative and associative whatever the processing order.
use vstd::prelude::*;

verus! {

/// One fixed-point amplifier unit: an amplifier of `AMP_ONE` is unit volume.
pub const AMP_ONE: u32 = 65536;

/// One fixed-point fraction unit: a fraction of `FRAC_ONE` is 1.0.
pub const FRAC_ONE: u64 = 0x1_0000_0000;

/// Any clip sample amplitude is bounded by this, so that scaling by an
/// amplifier cannot overflow the intermediate arithmetic.
pub const SAMPLE_LIMIT: i64 = 0x1_0000_0000;

/// One stereo sample: a left and a right amplitude.
#[derive(Clone, Copy, Debug, PartialEq, Eq, Structural)]
pub struct Frame {
    pub left: i64,
    pub right: i64,
}

/// Wrapping sum of two amplitudes.
pub open spec fn amp_add(a: i64, b: i64) -> i64 {
    vstd::wrapping::i64_specs::wrapping_add(a, b)
}

/// Component-wise wrapping sum of two frames.
pub open spec fn frame_add(a: Frame, b: Frame) -> Frame {
    Frame { left: amp_add(a.left, b.left), right: amp_add(a.right, b.right) }
}

/// An amplitude scaled by an amplifier, rounded toward zero.
pub open spec fn amp_scale(v: int, amp: int) -> int {
    if v >= 0 {
        (v * amp) / (AMP_ONE as int)
    } else {
        -(((-v) * amp) / (AMP_ONE as int))
    }
}

/// A frame scaled by an amplifier, component-wise.
pub open spec fn frame_scale(f: Frame, amp: u32) -> Frame {
    Frame {
        left: amp_scale(f.left as int, amp as int) as i64,
        right: amp_scale(f.right as int, amp as int) as i64,
    }
}

/// The mono downmix of a frame: the average of its channels, toward zero.
pub open spec fn frame_avg(f: Frame) -> int {
    let s = f.left + f.right;
    if s >= 0 {
        s / 2
    } else {
        -((-s) / 2)
    }
}

/// Linear interpolation between two amplitudes at fraction `f` of `FRAC_ONE`,
/// rounded toward `a`.
pub open spec fn amp_lerp(a: int, b: int, f: int) -> int {
    if b >= a {
        a + ((b - a) * f) / (FRAC_ONE as int)
    } else {
        a - ((a - b) * f) / (FRAC_ONE as int)
    }
}

/// Linear interpolation between two frames, component-wise.
pub open spec fn frame_lerp(a: Frame, b: Frame, f: int) -> Frame {
    Frame {
        left: amp_lerp(a.left as int, b.left as int, f) as i64,
        right: amp_lerp(a.right as int, b.right as int, f) as i64,
    }
}

impl Frame {
    /// The silent frame, the unit of mixing.
    pub fn silence() -> (r: Frame)
        ensures
            r.left == 0 && r.right == 0,
    {
        Frame { left: 0, right: 0 }
    }

    /// Component-wise wrapping sum; mixing folds frames with this operation.
    pub fn add(self, rhs: Frame) -> (r: Frame)
        ensures
            r == frame_add(self, rhs),
    {
        Frame { left: self.left.wrapping_add(rhs.left), right: self.right.wrapping_add(rhs.right) }
    }

    /// Scales both channels by an amplifier in units of `AMP_ONE`.
    pub fn scale(self, amp: u32) -> (r: Frame)
        requires
            -SAMPLE_LIMIT <= self.left <= SAMPLE_LIMIT,
            -SAMPLE_LIMIT <= self.right <= SAMPLE_LIMIT,
        ensures
            r == frame_scale(self, amp),
    {
        Frame { left: amp_scale_exec(self.left, amp), right: amp_scale_exec(self.right, amp) }
    }

    /// The mono downmix: the average of the two channels, toward zero.
    pub fn avg(&self) -> (r: i64)
        ensures
            r == frame_avg(*self),
    {
        let s: i128 = self.left as i128 + self.right as i128;
        if s >= 0 {
            ((s as u128) / 2) as i64
        } else {
            let half: u128 = ((-s) as u128) / 2;
            (-(half as i128)) as i64
        }
    }

    /// Interpolates between `self` and `other` at fraction `f` of `FRAC_ONE`.
    pub fn interpolate(&self, other: &Frame, f: u64) -> (r: Frame)
        requires
            f <= FRAC_ONE,
        ensures
            r == frame_lerp(*self, *other, f as int),
    {
        Frame {
            left: amp_lerp_exec(self.left, other.left, f),
            right: amp_lerp_exec(self.right, other.right, f),
        }
    }
}

/// The interpolated amplitude stays between the two endpoints.
pub proof fn lemma_lerp_in_range(a: int, b: int, f: int)
    requires
        i64::MIN <= a <= i64::MAX,
        i64::MIN <= b <= i64::MAX,
        0 <= f <= FRAC_ONE,
    ensures
        amp_lerp(a, b, f) <= if a >= b {
            a
        } else {
            b
        },
        amp_lerp(a, b, f) >= if a >= b {
            b
        } else {
            a
        },
{
    if b >= a {
        lemma_lerp_step_bound(b - a, f);
    } else {
        lemma_lerp_step_bound(a - b, f);
    }
}

/// Scales one amplitude by an amplifier in units of `AMP_ONE`.
fn amp_scale_exec(v: i64, amp: u32) -> (r: i64)
    requires
        -SAMPLE_LIMIT <= v <= SAMPLE_LIMIT,
    ensures
        r == amp_scale(v as int, amp as int),
{
    if v >= 0 {
        proof {
            lemma_scale_product_bound(v as int, amp as int);
        }
        let m: u128 = (v as u128) * (amp as u128);
        (m / 65536) as i64
    } else {
        let nv: u128 = (-(v as i128)) as u128;
        proof {
            lemma_scale_product_bound(nv as int, amp as int);
        }
        let m: u128 = nv * (amp as u128);
        (-((m / 65536) as i128)) as i64
    }
}

/// A bounded amplitude times an amplifier stays well inside the intermediate
/// range, and the scaled result fits an `i64`.
proof fn lemma_scale_product_bound(v: int, amp: int)
    requires
        0 <= v <= SAMPLE_LIMIT,
        0 <= amp <= u32::MAX,
    ensures
        0 <= v * amp <= 0x1_0000_0000 * 0xffff_ffff,
        0 <= (v * amp) / 65536 < 0x1_0000_0000_0000,
{
    assert(0 <= v * amp <= 0x1_0000_0000 * 0xffff_ffff) by (nonlinear_arith)
        requires
            0 <= v <= 0x1_0000_0000,
            0 <= amp <= 0xffff_ffff,
    ;
    vstd::arithmetic::div_mod::lemma_div_is_ordered(0, v * amp, 65536);
    vstd::arithmetic::div_mod::lemma_div_is_ordered(v * amp, 0x1_0000_0000int * 0xffff_ffff, 65536);
}

/// Interpolates one amplitude pair at fraction `f` of `FRAC_ONE`.
fn amp_lerp_exec(a: i64, b: i64, f: u64) -> (r: i64)
    requires
        f <= FRAC_ONE,
    ensures
        r == amp_lerp(a as int, b as int, f as int),
{
    if b >= a {
        let d: u128 = ((b as i128) - (a as i128)) as u128;
        proof {
            lemma_lerp_step_bound(d as int, f as int);
        }
        let m: u128 = d * (f as u128);
        let q: u128 = m / (FRAC_ONE as u128);
        ((a as i128) + (q as i128)) as i64
    } else {
        let d: u128 = ((a as i128) - (b as i128)) as u128;
        proof {
            lemma_lerp_step_bound(d as int, f as int);
        }
        let m: u128 = d * (f as u128);
        let q: u128 = m / (FRAC_ONE as u128);
        ((a as i128) - (q as i128)) as i64
    }
}

/// A step of at most the full distance: `(d * f) / FRAC_ONE <= d` when the
/// fraction is at most `FRAC_ONE`.
proof fn lemma_lerp_step_bound(d: int, f: int)
    requires
        0 <= d <= u64::MAX,
        0 <= f <= FRAC_ONE,
    ensures
        0 <= (d * f) / (FRAC_ONE as int) <= d,
        d * f <= u64::MAX * (FRAC_ONE as int),
{
    let one = FRAC_ONE as int;
    assert(0 <= d * f <= d * one) by (nonlinear_arith)
        requires
            0 <= f <= one,
            0 <= d,
    ;
    assert(d * one <= u64::MAX * one) by (nonlinear_arith)
        requires
            d <= u64::MAX,
            one > 0,
    ;
    vstd::arithmetic::div_mod::lemma_div_is_ordered(d * f, d * one, one);
    vstd::arithmetic::div_mod::lemma_div_by_multiple(d, one);
    vstd::arithmetic::div_mod::lemma_div_is_ordered(0, d * f, one);
}

/// Mixing two sources is commutative: their summed output frame does not
/// depend on the order in which the mixer processes them.
pub proof fn lemma_frame_add_commutes(a: Frame, b: Frame)
    ensures
        frame_add(a, b) == frame_add(b, a),
{
}

/// Mixing is associative: grouping of the summation does not change the
/// output frame.
pub proof fn lemma_frame_add_assoc(a: Frame, b: Frame, c: Frame)
    ensures
        frame_add(frame_add(a, b), c) == frame_add(a, frame_add(b, c)),
{
}

/// Rendering two sources in either relative processing order folds to the
/// same summed output frame, whatever was already accumulated.
pub proof fn lemma_mix_two_any_order(acc: Frame, a: Frame, b: Frame)
    ensures
        frame_add(frame_add(acc, a), b) == frame_add(frame_add(acc, b), a),
{
    lemma_frame_add_assoc(acc, a, b);
    lemma_frame_add_commutes(a, b);
    lemma_frame_add_assoc(acc, b, a);
}

} // verus!
