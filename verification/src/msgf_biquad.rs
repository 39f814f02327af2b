//
//  msgf_biquad.rs
//  Musical Sound Generator Framework
//      Biquad Class
//
//  Direct-form-I biquad with thru, low-pass and band-pass settings.
//  Coefficients are Q14, histories are kept inside a wide guard window,
//  and the analog-prototype prewarp tan is a fifth-order series, exact
//  enough over the audible cutoff range.
//
use vstd::prelude::*;

use crate::msgf_afrm::{AudioFrame, clip_spec};
use crate::msgf_fp::{tdiv, q16, mul64, tdiv64};

verus! {

/// Filter histories are clamped to this guard (256.0 in Q15).
pub const HIST_LIMIT: i32 = 8388608;

/// Largest magnitude of a Q14 coefficient (4.0).
pub const COEF_LIMIT: i32 = 65536;

/// Highest cutoff, in Hz, the settings accept.
pub const CUTOFF_MAX: u32 = 3600;

#[derive(PartialEq, Eq, Structural, Clone, Copy)]
pub struct BiquadParameter {
    pub freq: u32,       //  [Hz]
    pub resonance: i32,  //  Q16
}

pub struct Biquad {
    pub a1: i32,
    pub a2: i32,
    pub b0: i32,
    pub b1: i32,
    pub b2: i32,
    pub x_z1: i32,
    pub x_z2: i32,
    pub y_z1: i32,
    pub y_z2: i32,
}

/// Q16 prewarped analog frequency: tan(pi f / SR) by its series
/// x + x^3/3 + 2 x^5/15 at x = pi f / SR.
pub open spec fn warp_tan_spec(freq: int) -> int {
    let x = tdiv(freq * 306040, 65536);
    let x2 = q16(x * x);
    let x3 = q16(x2 * x);
    let x5 = q16(x3 * x2);
    x + x3 / 3 + tdiv(x5 * 2, 15)
}

/// Q14 coefficient: num / a0, where both are Q16.
pub open spec fn coef_spec(num: int, a0: int) -> int {
    tdiv(num * 16384, a0)
}

/// The shared Q16 denominator of both settings at a cutoff and
/// resonance: 1 + t/Q + t^2 with t the prewarped frequency.
pub open spec fn a0_spec(cutoff: int, reso: int) -> int {
    65536 + tdiv(warp_tan_spec(cutoff) * 65536, reso)
        + q16(warp_tan_spec(cutoff) * warp_tan_spec(cutoff))
}

/// The filter carries the low-pass setting at a cutoff and resonance.
pub open spec fn lpf_coefs_hold(b: Biquad, cutoff: int, reso: int) -> bool {
    let t2 = q16(warp_tan_spec(cutoff) * warp_tan_spec(cutoff));
    let a0 = a0_spec(cutoff, reso);
    &&& b.a1 == coef_spec(2 * t2 - 131072, a0)
    &&& b.a2 == coef_spec(65536 - tdiv(warp_tan_spec(cutoff) * 65536, reso) + t2, a0)
    &&& b.b0 == coef_spec(t2, a0)
    &&& b.b1 == coef_spec(2 * t2, a0)
    &&& b.b2 == b.b0
}

/// The filter carries the band-pass setting at a cutoff and resonance.
pub open spec fn bpf_coefs_hold(b: Biquad, cutoff: int, reso: int) -> bool {
    let t2 = q16(warp_tan_spec(cutoff) * warp_tan_spec(cutoff));
    let a0 = a0_spec(cutoff, reso);
    &&& b.a1 == coef_spec(2 * t2 - 131072, a0)
    &&& b.a2 == coef_spec(65536 - tdiv(warp_tan_spec(cutoff) * 65536, reso) + t2, a0)
    &&& b.b0 == coef_spec(tdiv(warp_tan_spec(cutoff) * 65536, reso), a0)
    &&& b.b1 == 0
    &&& b.b2 == -b.b0
}

/// Clamp a filter value into the history guard window.
pub open spec fn hist_clamp(v: int) -> int {
    if v > HIST_LIMIT as int {
        HIST_LIMIT as int
    } else if v < -(HIST_LIMIT as int) {
        -(HIST_LIMIT as int)
    } else {
        v
    }
}

/// One direct-form-I step: the output before the audio-frame clip.
pub open spec fn biquad_out_spec(b: Biquad, x: int) -> int {
    hist_clamp(tdiv(
        b.b0 * x + b.b1 * b.x_z1 + b.b2 * b.x_z2 - b.a1 * b.y_z1 - b.a2 * b.y_z2, 16384))
}

/// The filter state after consuming x.
pub open spec fn biquad_next_spec(b: Biquad, x: int) -> Biquad {
    Biquad {
        x_z2: b.x_z1,
        x_z1: x as i32,
        y_z2: b.y_z1,
        y_z1: biquad_out_spec(b, x) as i32,
        ..b
    }
}

/// The filter state after consuming the first i entries of a block.
pub open spec fn biquad_iter_spec(b: Biquad, xs: Seq<i32>, i: int) -> Biquad
    decreases i,
{
    if i <= 0 {
        b
    } else {
        biquad_next_spec(biquad_iter_spec(b, xs, i - 1), xs[i - 1] as int)
    }
}

impl Biquad {
    pub open spec fn wf(self) -> bool {
        &&& -COEF_LIMIT <= self.a1 <= COEF_LIMIT
        &&& -COEF_LIMIT <= self.a2 <= COEF_LIMIT
        &&& -COEF_LIMIT <= self.b0 <= COEF_LIMIT
        &&& -COEF_LIMIT <= self.b1 <= COEF_LIMIT
        &&& -COEF_LIMIT <= self.b2 <= COEF_LIMIT
        &&& -HIST_LIMIT <= self.x_z1 <= HIST_LIMIT
        &&& -HIST_LIMIT <= self.x_z2 <= HIST_LIMIT
        &&& -HIST_LIMIT <= self.y_z1 <= HIST_LIMIT
        &&& -HIST_LIMIT <= self.y_z2 <= HIST_LIMIT
    }

    pub fn new() -> (r: Biquad)
        ensures
            r.wf(),
            r.a1 == 0 && r.a2 == 0 && r.b0 == 16384 && r.b1 == 0 && r.b2 == 0,
            r.x_z1 == 0 && r.x_z2 == 0 && r.y_z1 == 0 && r.y_z2 == 0,
    {
        Biquad { a1: 0, a2: 0, b0: 16384, b1: 0, b2: 0, x_z1: 0, x_z2: 0, y_z1: 0, y_z2: 0 }
    }

    /// Bypass: unit gain, no poles.
    pub fn set_thru(&mut self)
        requires
            old(self).wf(),
        ensures
            final(self).wf(),
            final(self).a1 == 0 && final(self).a2 == 0,
            final(self).b0 == 16384 && final(self).b1 == 0 && final(self).b2 == 0,
            final(self).x_z1 == old(self).x_z1 && final(self).x_z2 == old(self).x_z2,
            final(self).y_z1 == old(self).y_z1 && final(self).y_z2 == old(self).y_z2,
    {
        self.a1 = 0;
        self.a2 = 0;
        self.b0 = 16384;
        self.b1 = 0;
        self.b2 = 0;
    }

    /// Low-pass at a cutoff and resonance: numerator t^2, shared
    /// denominator 1 + t/Q + t^2 with t the prewarped frequency.  The
    /// cutoff and resonance windows in the requires are where the tan
    /// series stays accurate; every caller stays inside them.
    pub fn set_lpf(&mut self, cutoff: u32, reso: i32)
        requires
            old(self).wf(),
            cutoff <= CUTOFF_MAX,
            16384 <= reso <= 1048576,
        ensures
            final(self).wf(),
            lpf_coefs_hold(*final(self), cutoff as int, reso as int),
            final(self).x_z1 == old(self).x_z1 && final(self).x_z2 == old(self).x_z2,
            final(self).y_z1 == old(self).y_z1 && final(self).y_z2 == old(self).y_z2,
    {
        let (t, tq, t2, a0) = Biquad::denominator(cutoff, reso);
        self.a1 = Biquad::coef(2 * t2 - 131072, a0);
        self.a2 = Biquad::coef(65536 - tq + t2, a0);
        self.b0 = Biquad::coef(t2, a0);
        self.b1 = Biquad::coef(2 * t2, a0);
        self.b2 = self.b0;
    }

    /// Band-pass at a cutoff and resonance: numerator t/Q, same
    /// denominator and domain as the low-pass.
    pub fn set_bpf(&mut self, cutoff: u32, reso: i32)
        requires
            old(self).wf(),
            cutoff <= CUTOFF_MAX,
            16384 <= reso <= 1048576,
        ensures
            final(self).wf(),
            bpf_coefs_hold(*final(self), cutoff as int, reso as int),
            final(self).x_z1 == old(self).x_z1 && final(self).x_z2 == old(self).x_z2,
            final(self).y_z1 == old(self).y_z1 && final(self).y_z2 == old(self).y_z2,
    {
        let (t, tq, t2, a0) = Biquad::denominator(cutoff, reso);
        self.a1 = Biquad::coef(2 * t2 - 131072, a0);
        self.a2 = Biquad::coef(65536 - tq + t2, a0);
        self.b0 = Biquad::coef(tq, a0);
        self.b1 = 0;
        self.b2 = -self.b0;
    }

    /// The shared pieces of both settings: prewarped t, t/Q, t^2 and the
    /// Q16 denominator a0 = 1 + t/Q + t^2.
    fn denominator(cutoff: u32, reso: i32) -> (r: (i64, i64, i64, i64))
        requires
            cutoff <= CUTOFF_MAX,
            16384 <= reso <= 1048576,
        ensures
            r.0 == warp_tan_spec(cutoff as int),
            r.1 == tdiv(r.0 * 65536, reso as int),
            r.2 == q16(r.0 * r.0),
            r.3 == 65536 + r.1 + r.2,
            0 <= r.0 <= 17200,
            0 <= r.1 <= 68800,
            0 <= r.2 <= 4600,
            65536 <= r.3 <= 140000,
    {
        let x: i64 = tdiv64(cutoff as i64 * 306040, 65536);
        proof {
            assert(0 <= (cutoff as int) * 306040 <= 3600 * 306040) by (nonlinear_arith)
                requires
                    0 <= cutoff as int <= 3600,
            {}
            crate::msgf_fp::lemma_tdiv_bound((cutoff as int) * 306040, 65536, (3600 * 306040) as int);
            assert(((3600 * 306040) as int) / 65536 == 16811);
            assert(0 <= x <= 16811);
        }
        let x2: i64 = tdiv64(mul64(x, x), 65536);
        proof {
            assert(0 <= x * x <= 16811 * 16811) by (nonlinear_arith)
                requires
                    0 <= x <= 16811,
            {}
            crate::msgf_fp::lemma_tdiv_bound(x * x, 65536, (16811 * 16811) as int);
            assert(((16811 * 16811) as int) / 65536 == 4312);
            assert(0 <= x2 <= 4312);
        }
        let x3: i64 = tdiv64(mul64(x2, x), 65536);
        proof {
            assert(0 <= x2 * x <= 4312 * 16811) by (nonlinear_arith)
                requires
                    0 <= x2 <= 4312,
                    0 <= x <= 16811,
            {}
            crate::msgf_fp::lemma_tdiv_bound(x2 * x, 65536, (4312 * 16811) as int);
            assert(((4312 * 16811) as int) / 65536 == 1106);
            assert(0 <= x3 <= 1106);
        }
        let x5: i64 = tdiv64(mul64(x3, x2), 65536);
        proof {
            assert(0 <= x3 * x2 <= 1106 * 4312) by (nonlinear_arith)
                requires
                    0 <= x3 <= 1106,
                    0 <= x2 <= 4312,
            {}
            crate::msgf_fp::lemma_tdiv_bound(x3 * x2, 65536, (1106 * 4312) as int);
            assert(((1106 * 4312) as int) / 65536 == 72);
            assert(0 <= x5 <= 72);
        }
        let t: i64 = x + x3 / 3 + tdiv64(x5 * 2, 15);
        let tq: i64 = tdiv64(t * 65536, reso as i64);
        proof {
            assert(0 <= t * 65536 <= 17200 * 65536) by (nonlinear_arith)
                requires
                    0 <= t <= 17200,
            {}
            crate::msgf_fp::lemma_tdiv_bound4(t * 65536, reso as int, 16384, (17200 * 65536) as int);
        }
        let t2: i64 = tdiv64(mul64(t, t), 65536);
        proof {
            assert(0 <= t * t <= 17200 * 17200) by (nonlinear_arith)
                requires
                    0 <= t <= 17200,
            {}
            crate::msgf_fp::lemma_tdiv_bound(t * t, 65536, (17200 * 17200) as int);
            assert(((17200 * 17200) as int) / 65536 == 4514);
        }
        let a0: i64 = 65536 + tq + t2;
        (t, tq, t2, a0)
    }

    /// One Q14 coefficient.
    fn coef(num: i64, a0: i64) -> (r: i32)
        requires
            -140000 <= num <= 140000,
            65536 <= a0 <= 140000,
        ensures
            r == coef_spec(num as int, a0 as int),
            -COEF_LIMIT <= r <= COEF_LIMIT,
    {
        let v = tdiv64(num * 16384, a0);
        proof {
            crate::msgf_fp::lemma_tdiv_bound4(num as int * 16384, a0 as int, 65536, (140000 * 16384) as int);
            assert(((140000 * 16384) as int) / 65536 == 35000);
            assert(-35000 <= v <= 35000);
        }
        v as i32
    }

    /// One direct-form-I step over the histories.
    fn core_job(&mut self, input: i32) -> (r: i32)
        requires
            old(self).wf(),
            -HIST_LIMIT <= input <= HIST_LIMIT,
        ensures
            final(self).wf(),
            r as int == biquad_out_spec(*old(self), input as int),
            *final(self) == (biquad_next_spec(*old(self), input as int)),
    {
        let p0 = crate::msgf_fp::mul64b(self.b0 as i64, input as i64, COEF_LIMIT as i64, HIST_LIMIT as i64);
        let p1 = crate::msgf_fp::mul64b(self.b1 as i64, self.x_z1 as i64, COEF_LIMIT as i64, HIST_LIMIT as i64);
        let p2 = crate::msgf_fp::mul64b(self.b2 as i64, self.x_z2 as i64, COEF_LIMIT as i64, HIST_LIMIT as i64);
        let p3 = crate::msgf_fp::mul64b(self.a1 as i64, self.y_z1 as i64, COEF_LIMIT as i64, HIST_LIMIT as i64);
        let p4 = crate::msgf_fp::mul64b(self.a2 as i64, self.y_z2 as i64, COEF_LIMIT as i64, HIST_LIMIT as i64);
        let acc: i64 = p0 + p1 + p2 - p3 - p4;
        let y64 = tdiv64(acc, 16384);
        let output: i32 = if y64 > HIST_LIMIT as i64 {
            HIST_LIMIT
        } else if y64 < -(HIST_LIMIT as i64) {
            -HIST_LIMIT
        } else {
            y64 as i32
        };
        self.x_z2 = self.x_z1;
        self.x_z1 = input;
        self.y_z2 = self.y_z1;
        self.y_z1 = output;
        output
    }

    /// Filter a block in place: sample i becomes the clipped filter
    /// output for the block's original sample i.
    pub fn process_a(&mut self, abuf: &mut AudioFrame)
        requires
            old(self).wf(),
            old(abuf).wf(),
        ensures
            final(self).wf(),
            *final(self) == (biquad_iter_spec(*old(self), old(abuf).samples(),
                old(abuf).sample_number as int)),
            final(abuf).wf(),
            final(abuf).capacity() == old(abuf).capacity(),
            final(abuf).sample_number == old(abuf).sample_number,
            final(abuf).cursor() == old(abuf).cursor(),
            forall|i: int| 0 <= i < old(abuf).sample_number
                ==> final(abuf).samples()[i] as int == clip_spec(biquad_out_spec(
                        biquad_iter_spec(*old(self), old(abuf).samples(), i),
                        old(abuf).samples()[i] as int)),
            forall|i: int| old(abuf).sample_number <= i < old(abuf).capacity()
                ==> final(abuf).samples()[i] == old(abuf).samples()[i],
    {
        let ghost b0: Biquad = *old(self);
        let ghost xs: Seq<i32> = abuf.samples();
        let mut i: usize = 0;
        while i < abuf.sample_number
            invariant
                i <= abuf.sample_number,
                self.wf(),
                abuf.wf(),
                abuf.capacity() == old(abuf).capacity(),
                abuf.sample_number == old(abuf).sample_number,
                abuf.cursor() == old(abuf).cursor(),
                xs == old(abuf).samples(),
                *self == (biquad_iter_spec(b0, xs, i as int)),
                forall|k: int| 0 <= k < i
                    ==> abuf.samples()[k] as int == clip_spec(biquad_out_spec(
                            biquad_iter_spec(b0, xs, k), xs[k] as int)),
                forall|k: int| i <= k < old(abuf).capacity()
                    ==> abuf.samples()[k] == old(abuf).samples()[k],
            decreases abuf.sample_number - i,
        {
            match abuf.get_from_abuf(i) {
                Some(x) => {
                    let ghost prev: Biquad = *self;
                    proof {
                        assert(abuf.samples()[i as int] == xs[i as int]);
                        assert(crate::msgf_afrm::in_clip(xs[i as int] as int));
                    }
                    let y = self.core_job(x);
                    abuf.set_abuf(i, y);
                    proof {
                        assert(biquad_iter_spec(b0, xs, i + 1)
                            == biquad_next_spec(biquad_iter_spec(b0, xs, i as int), xs[i as int] as int));
                    }
                }
                None => {}
            }
            i += 1;
        }
    }
}

} // verus!
