//
//  msgf_additive.rs
//  Musical Sound Generator Framework
//      Additive Class
//
//  Additive generator with a vocal formant: up to 32 harmonics of the
//  pulse series, each scaled by a pitch-dependent rolloff and by a
//  gaussian formant curve around the nearest of four formant centres.
//  Portamento glides the base pitch toward a retargeted note.
//
//      f1      f2      f3      f4
//  a   800     1200    2500    3500
//  i   300     2300    2900    3500
//  u   300     1200    2500    3500
//  e   500     1900    2500    3500
//  o   500     800     2500    3500
//
use vstd::prelude::*;

use crate::{PHASE_ONE, AUDIO_FRAME_PER_CONTROL};
use crate::msgf_afrm::{AudioFrame, clip_spec};
use crate::msgf_cfrm::CtrlFrame;
use crate::msgf_fp::{tdiv, q15, q16, mul64, tdiv64, q15_div, lemma_tdiv_bound, lemma_tdiv_scale_le};
use crate::msgf_osc::{
    base_pitch_spec, cnt_pitch_spec, delta_phase_spec, phase_at_spec, phase_step_spec,
    pseudo_sine_spec, calc_base_pitch, calc_cnt_pitch, pseudo_sine, osc_phase_step,
    calc_delta_phase, PITCH_MAX, RATIO_MAX, CENTS_LIMIT,
};
use crate::msgf_table::PULSE0_1;

verus! {

/// Phase offset added to every harmonic (0.01 of a cycle, Q24).
pub const PHASE_STREWING: u32 = 167772;

/// Highest formant centre, Hz.
pub const FORMANT_F4: i32 = 3500;

/// Formant centres stay within this window, Hz.
pub const FORMANT_MIN: i32 = 100;

pub const FORMANT_MAX: i32 = 4000;

#[derive(PartialEq, Eq, Structural, Clone, Copy)]
pub struct AdditiveParameter {
    pub coarse_tune: i32,  //  [semitone]
    pub fine_tune: i32,    //  [cent]
    pub pmd: i32,          //  Q15
    pub prtm_spd: i32,     //  Q15 portamento step per block
    pub magnitude: i32,    //  Q15 output gain
}

pub open spec fn additive_prm_wf(p: AdditiveParameter) -> bool {
    &&& -128 <= p.coarse_tune <= 128
    &&& -1200 <= p.fine_tune <= 1200
    &&& 0 <= p.pmd <= 32768
    &&& 0 <= p.prtm_spd <= 32768
    &&& 0 <= p.magnitude <= 32768
}

/// The rolloff each harmonic k gets as the fundamental rises: a Q15 ramp
/// max(0, a k + b) with b the pitch over 200 Hz and a its complement
/// scaled by 1.2 over 1000.
pub open spec fn scaling_spec(pitch: int, k: int) -> int {
    let b = tdiv(pitch * 32768, 200);
    let a = tdiv((200 - pitch) * 39322, 1000);
    if a * k + b < 0 {
        0
    } else {
        a * k + b
    }
}

/// Q15 gaussian bell around a formant: exp(-d^2 / (2 * 150^2)) looked up
/// in eighths of an e-fold, stretched to 0.5 .. 2.0.
pub open spec fn gauss_spec(d: int) -> int {
    let t = (d * d * 8) / 45000;
    let e = if t > 96 { 0 } else { crate::msgf_table::EXP_NEG[t] as int };
    (e * 3) / 2 + 16384
}

/// The formant weight of harmonic k: the gaussian around whichever of
/// the four centres the harmonic's frequency falls nearest, by interval
/// midpoints; centres one and two drift up with a high fundamental.
pub open spec fn formant_spec(f1: int, f2: int, pitch: int, k: int) -> int {
    let f1d = if pitch > 400 { f1 + (pitch - 400) / 2 } else { f1 };
    let f2d = if pitch > 400 { f2 + (pitch - 400) / 2 } else { f2 };
    let f3 = if f2d > 1900 { f2d + 600 } else { 2500 };
    let otp = pitch * k;
    if otp < f1 {
        gauss_spec(otp - f1d)
    } else if otp < (f1 + f2) / 2 {
        gauss_spec(otp - f1d)
    } else if otp < f2 {
        gauss_spec(otp - f2d)
    } else if otp < (f2 + f3) / 2 {
        gauss_spec(otp - f2d)
    } else if otp < f3 {
        gauss_spec(otp - f3)
    } else if otp < (f3 + FORMANT_F4 as int) / 2 {
        gauss_spec(otp - f3)
    } else {
        gauss_spec(otp - FORMANT_F4 as int)
    }
}

/// The Q15 weight of harmonic k: rolloff times formant.
pub open spec fn filter_spec(f1: int, f2: int, pitch: int, k: int) -> int {
    q15(scaling_spec(pitch, k) * formant_spec(f1, f2, pitch, k))
}

/// The filtered harmonic sum over j in 0 .. k at a phase.
pub open spec fn additive_sum_spec(ph: int, f1: int, f2: int, pitch: int, k: int) -> int
    decreases k,
{
    if k <= 0 {
        0
    } else {
        additive_sum_spec(ph, f1, f2, pitch, k - 1) + q15(
            q15(PULSE0_1[k - 1] * filter_spec(f1, f2, pitch, k - 1))
                * pseudo_sine_spec((ph * (k - 1) + PHASE_STREWING as int) % (PHASE_ONE as int)))
    }
}

/// The raw block value at a phase: the harmonic sum with a constant
/// four-fold gain trim.
pub open spec fn additive_wave_spec(ph: int, f1: int, f2: int, pitch: int, k: int) -> int {
    4 * additive_sum_spec(ph, f1, f2, pitch, k)
}

pub struct Additive {
    pub prms_variable: AdditiveParameter,
    pub pmd: i32,          //  Q15
    pub base_pitch: u32,   //  Q16 [Hz]
    pub next_phase: u32,   //  Q24
    pub target_pitch: u32, //  Q16 [Hz], portamento goal
    pub real_prtm_spd: i32,
    pub cnt_ratio: u32,    //  Q16 bend ratio
    pub f1: i32,           //  [Hz]
    pub f2: i32,           //  [Hz]
}

impl Additive {
    pub open spec fn wf(self) -> bool {
        &&& additive_prm_wf(self.prms_variable)
        &&& 0 <= self.pmd <= 32768
        &&& 65536 <= self.base_pitch <= PITCH_MAX
        &&& 65536 <= self.target_pitch <= PITCH_MAX
        &&& 0 <= self.real_prtm_spd <= 32768
        &&& 0 < self.cnt_ratio <= RATIO_MAX
        &&& self.next_phase < PHASE_ONE
        &&& FORMANT_MIN <= self.f1 <= FORMANT_MAX
        &&& FORMANT_MIN <= self.f2 <= FORMANT_MAX
    }

    pub fn new(prms: &AdditiveParameter, note: u8, cnt_pitch: i32) -> (r: Additive)
        requires
            additive_prm_wf(*prms),
            -CENTS_LIMIT <= cnt_pitch <= CENTS_LIMIT,
        ensures
            r.wf(),
            r.prms_variable == *prms,
            r.pmd == prms.pmd,
            r.base_pitch == base_pitch_spec(prms.coarse_tune as int, prms.fine_tune as int, note as int),
            r.target_pitch == r.base_pitch,
            r.real_prtm_spd == 0,
            r.cnt_ratio == cnt_pitch_spec(cnt_pitch as int),
            r.next_phase == 0,
            r.f1 == 300 && r.f2 == 2300,
    {
        let pit = calc_base_pitch(prms.coarse_tune, prms.fine_tune, note);
        Additive {
            prms_variable: *prms,
            pmd: prms.pmd,
            base_pitch: pit,
            next_phase: 0,
            target_pitch: pit,
            real_prtm_spd: 0,
            cnt_ratio: calc_cnt_pitch(cnt_pitch),
            f1: 300,
            f2: 2300,
        }
    }

    pub fn change_pmd(&mut self, value: i32)
        requires
            old(self).wf(),
            0 <= value <= 32768,
        ensures
            final(self).wf(),
            *final(self) == (Additive { pmd: value, ..*old(self) }),
    {
        self.pmd = value;
    }

    /// Retarget the portamento: jump halfway at once, then glide at the
    /// preset speed.
    pub fn change_note(&mut self, note: u8)
        requires
            old(self).wf(),
        ensures
            final(self).wf(),
            final(self).target_pitch == base_pitch_spec(
                old(self).prms_variable.coarse_tune as int,
                old(self).prms_variable.fine_tune as int, note as int),
            final(self).base_pitch as int == old(self).base_pitch as int
                + tdiv(final(self).target_pitch - old(self).base_pitch, 2),
            final(self).real_prtm_spd == old(self).prms_variable.prtm_spd,
            final(self).prms_variable == old(self).prms_variable,
            final(self).pmd == old(self).pmd,
            final(self).cnt_ratio == old(self).cnt_ratio,
            final(self).next_phase == old(self).next_phase,
            final(self).f1 == old(self).f1,
            final(self).f2 == old(self).f2,
    {
        let tp = calc_base_pitch(
            self.prms_variable.coarse_tune, self.prms_variable.fine_tune, note);
        self.target_pitch = tp;
        let bp = self.base_pitch as i64;
        let half: i64 = tdiv64(tp as i64 - bp, 2);
        self.base_pitch = (bp + half) as u32;
        self.real_prtm_spd = self.prms_variable.prtm_spd;
    }

    pub fn change_pitch(&mut self, cnt_pitch: i32)
        requires
            old(self).wf(),
            -CENTS_LIMIT <= cnt_pitch <= CENTS_LIMIT,
        ensures
            final(self).wf(),
            final(self).cnt_ratio == cnt_pitch_spec(cnt_pitch as int),
            *final(self) == (Additive { cnt_ratio: final(self).cnt_ratio, ..*old(self) }),
    {
        self.cnt_ratio = calc_cnt_pitch(cnt_pitch);
    }

    pub fn change_f1(&mut self, f1: i32)
        requires
            old(self).wf(),
            FORMANT_MIN <= f1 <= FORMANT_MAX,
        ensures
            final(self).wf(),
            *final(self) == (Additive { f1: f1, ..*old(self) }),
    {
        self.f1 = f1;
    }

    pub fn change_f2(&mut self, f2: i32)
        requires
            old(self).wf(),
            FORMANT_MIN <= f2 <= FORMANT_MAX,
        ensures
            final(self).wf(),
            *final(self) == (Additive { f2: f2, ..*old(self) }),
    {
        self.f2 = f2;
    }
}

/// Executable form of one harmonic's Q15 weight.
fn filter_value(f1: i32, f2: i32, pitch: i32, k: usize) -> (r: i64)
    requires
        FORMANT_MIN <= f1 <= FORMANT_MAX,
        FORMANT_MIN <= f2 <= FORMANT_MAX,
        0 < pitch <= 54000,
        k <= 32,
    ensures
        r == filter_spec(f1 as int, f2 as int, pitch as int, k as int),
        0 <= r <= 0x4000_0000,
{
    // rolloff ramp
    let b: i64 = tdiv64(pitch as i64 * 32768, 200);
    let a: i64 = tdiv64((200 - pitch as i64) * 39322, 1000);
    proof {
        lemma_tdiv_bound(pitch as int * 32768, 200, (54000 * 32768) as int);
        lemma_tdiv_bound((200 - pitch as int) * 39322, 1000, (54000 * 39322) as int);
    }
    proof {
        assert(((54000 * 32768) as int) / 200 == 8847360);
        assert(((54000 * 39322) as int) / 1000 == 2123388);
        assert(-(2123388 * 32) <= a * (k as i64) <= 2123388 * 32) by (nonlinear_arith)
            requires
                -2123388 <= a <= 2123388,
                0 <= k as i64 <= 32,
        {}
    }
    let v: i64 = a * (k as i64) + b;
    let scl: i64 = if v < 0 { 0 } else { v };
    proof {
        assert(scl == scaling_spec(pitch as int, k as int));
        assert(0 <= scl <= 76795776);
    }
    // formant bell
    let f1d: i32 = if pitch > 400 { f1 + (pitch - 400) / 2 } else { f1 };
    let f2d: i32 = if pitch > 400 { f2 + (pitch - 400) / 2 } else { f2 };
    let f3: i32 = if f2d > 1900 { f2d + 600 } else { 2500 };
    proof {
        assert(0 <= (pitch as int) * (k as int) <= 54000 * 32) by (nonlinear_arith)
            requires
                0 < pitch as int <= 54000,
                0 <= k as int <= 32,
        {}
    }
    let otp: i32 = pitch * (k as i32);
    let fm: i64 = if otp < f1 {
        gauss_value(otp - f1d)
    } else if otp < (f1 + f2) / 2 {
        gauss_value(otp - f1d)
    } else if otp < f2 {
        gauss_value(otp - f2d)
    } else if otp < (f2 + f3) / 2 {
        gauss_value(otp - f2d)
    } else if otp < f3 {
        gauss_value(otp - f3)
    } else if otp < (f3 + FORMANT_F4) / 2 {
        gauss_value(otp - f3)
    } else {
        gauss_value(otp - FORMANT_F4)
    };
    proof {
        assert(fm == formant_spec(f1 as int, f2 as int, pitch as int, k as int));
    }
    let w = tdiv64(mul64(scl, fm), 32768);
    proof {
        assert(0 <= scl * fm <= 76795776 * 65536) by (nonlinear_arith)
            requires
                0 <= scl <= 76795776,
                0 <= fm <= 65536,
        {}
        lemma_tdiv_bound(scl * fm, 32768, (76795776 * 65536) as int);
        assert(((76795776 * 65536) as int) / 32768 == 153591552);
    }
    w
}

/// Executable form of gauss_spec.
fn gauss_value(d: i32) -> (r: i64)
    requires
        -4000000 <= d <= 4000000,
    ensures
        r == gauss_spec(d as int),
        16384 <= r <= 65536,
{
    let dd: i64 = crate::msgf_fp::mul64b(d as i64, d as i64, 4000000, 4000000);
    proof {
        assert(dd >= 0) by (nonlinear_arith)
            requires
                dd == (d as i64) * (d as i64),
        {}
    }
    let t: i64 = (dd * 8) / 45000;
    let e: i64 = if t > 96 {
        0
    } else {
        crate::msgf_table::EXP_NEG[t as usize] as i64
    };
    proof {
        if t <= 96 {
            assert(0 <= crate::msgf_table::EXP_NEG[t as int] <= 32768);
        }
    }
    (e * 3) / 2 + 16384
}

impl Additive {
    /// One portamento step of the base pitch toward the target.
    fn pitch_interporation(&mut self)
        requires
            old(self).wf(),
        ensures
            final(self).wf(),
            final(self).base_pitch as int == additive_glide_spec(
                old(self).base_pitch as int, old(self).target_pitch as int,
                old(self).real_prtm_spd as int),
            *final(self) == (Additive { base_pitch: final(self).base_pitch, ..*old(self) }),
    {
        if self.base_pitch == self.target_pitch {
            return;
        }
        let diff: i64 = self.target_pitch as i64 - self.base_pitch as i64;
        proof {
            assert(-0x8000_0000_0000 <= (diff as int) * (self.real_prtm_spd as int) <= 0x8000_0000_0000)
                by (nonlinear_arith)
                requires
                    -0x1_0000_0000 <= diff as int <= 0x1_0000_0000,
                    0 <= self.real_prtm_spd <= 32768,
            {}
        }
        let step = q15_div(diff * (self.real_prtm_spd as i64));
        proof {
            lemma_tdiv_scale_le(diff as int, self.real_prtm_spd as int, 32768);
        }
        let nb: i64 = self.base_pitch as i64 + step;
        let snap_lo: bool = nb * 100 > self.target_pitch as i64 * 99;
        let snap_hi: bool = nb * 100 < self.target_pitch as i64 * 101;
        if snap_lo && snap_hi {
            self.base_pitch = self.target_pitch;
        } else {
            self.base_pitch = nb as u32;
        }
    }

    /// Render one block: after one portamento step, frame i gets the
    /// clipped, magnitude-scaled harmonic sum at the phase the modulated
    /// advance reaches before it.
    pub fn process_ac(&mut self, abuf: &mut AudioFrame, lbuf: &CtrlFrame)
        requires
            old(self).wf(),
            old(abuf).wf(),
            lbuf.wf(),
            old(abuf).sample_number <= lbuf.sample_number * (AUDIO_FRAME_PER_CONTROL as int),
        ensures
            final(self).wf(),
            final(self).prms_variable == old(self).prms_variable,
            final(self).pmd == old(self).pmd,
            final(self).target_pitch == old(self).target_pitch,
            final(self).real_prtm_spd == old(self).real_prtm_spd,
            final(self).cnt_ratio == old(self).cnt_ratio,
            final(self).f1 == old(self).f1,
            final(self).f2 == old(self).f2,
            final(self).base_pitch as int == additive_glide_spec(
                old(self).base_pitch as int, old(self).target_pitch as int,
                old(self).real_prtm_spd as int),
            final(self).next_phase < PHASE_ONE,
            final(self).next_phase == phase_at_spec(
                old(self).next_phase as int,
                delta_phase_spec(final(self).base_pitch as int, old(self).cnt_ratio as int),
                old(self).pmd as int, lbuf.samples(), old(abuf).sample_number as int),
            final(abuf).wf(),
            final(abuf).capacity() == old(abuf).capacity(),
            final(abuf).sample_number == old(abuf).sample_number,
            final(abuf).cursor() == old(abuf).cursor(),
            forall|i: int| 0 <= i < old(abuf).sample_number
                ==> final(abuf).samples()[i] as int == clip_spec(q15(additive_wave_spec(
                        phase_at_spec(
                            old(self).next_phase as int,
                            delta_phase_spec(final(self).base_pitch as int, old(self).cnt_ratio as int),
                            old(self).pmd as int, lbuf.samples(), i),
                        final(self).f1 as int, final(self).f2 as int,
                        final(self).base_pitch as int / 65536,
                        additive_overtones_spec(final(self).base_pitch as int))
                    * old(self).prms_variable.magnitude)),
            forall|i: int| old(abuf).sample_number <= i < old(abuf).capacity()
                ==> final(abuf).samples()[i] == old(abuf).samples()[i],
    {
        self.pitch_interporation();
        let dp = calc_delta_phase(self.base_pitch, self.cnt_ratio);
        let pmd = self.pmd;
        let mag = self.prms_variable.magnitude;
        let f1 = self.f1;
        let f2 = self.f2;
        let pitch_hz: i32 = (self.base_pitch / 65536) as i32;
        let ot0 = (786432000u64 / (self.base_pitch as u64)) as usize;
        let ot: usize = if ot0 <= 32 { ot0 } else { 32 };
        proof {
            assert(pitch_hz as int == self.base_pitch as int / 65536);
            assert(ot as int == additive_overtones_spec(self.base_pitch as int));
            assert(1 <= pitch_hz <= 53407);
        }
        let ghost p0: int = self.next_phase as int;
        let ghost dpg: int = dp as int;
        let ghost lseq: Seq<i32> = lbuf.samples();
        let mut phase = self.next_phase;
        let mut i: usize = 0;
        while i < abuf.sample_number
            invariant
                i <= abuf.sample_number,
                phase < PHASE_ONE,
                dp < PHASE_ONE,
                0 <= pmd <= 32768,
                0 <= mag <= 32768,
                FORMANT_MIN <= f1 <= FORMANT_MAX,
                FORMANT_MIN <= f2 <= FORMANT_MAX,
                0 < pitch_hz <= 54000,
                ot <= 32,
                lbuf.wf(),
                lseq == lbuf.samples(),
                abuf.sample_number <= lbuf.sample_number * (AUDIO_FRAME_PER_CONTROL as int),
                abuf.wf(),
                abuf.capacity() == old(abuf).capacity(),
                abuf.sample_number == old(abuf).sample_number,
                abuf.cursor() == old(abuf).cursor(),
                dpg == dp as int,
                phase == phase_at_spec(p0, dpg, pmd as int, lseq, i as int),
                forall|k: int| 0 <= k < i
                    ==> abuf.samples()[k] as int == clip_spec(q15(additive_wave_spec(
                            phase_at_spec(p0, dpg, pmd as int, lseq, k),
                            f1 as int, f2 as int, pitch_hz as int, ot as int) * mag)),
                forall|k: int| i <= k < old(abuf).capacity()
                    ==> abuf.samples()[k] == old(abuf).samples()[k],
            decreases abuf.sample_number - i,
        {
            let w = additive_wave_value(phase, f1, f2, pitch_hz, ot, mag);
            abuf.set_abuf(i, w);
            let l = lbuf.ctrl_for_audio(i);
            phase = osc_phase_step(phase, dp, l, pmd);
            proof {
                assert(phase_at_spec(p0, dpg, pmd as int, lseq, i + 1) == phase_step_spec(
                    phase_at_spec(p0, dpg, pmd as int, lseq, i as int), dpg,
                    lseq[(i as int) / (AUDIO_FRAME_PER_CONTROL as int)] as int, pmd as int));
            }
            i += 1;
        }
        self.next_phase = phase;
    }
}

/// One portamento move: nothing at the target, else a step of the gap at
/// the glide speed, snapped once within one percent.
pub open spec fn additive_glide_spec(base: int, target: int, spd: int) -> int {
    if base == target {
        base
    } else {
        let nb = base + tdiv((target - base) * spd, 32768);
        if nb * 100 < target * 101 && nb * 100 > target * 99 {
            target
        } else {
            nb
        }
    }
}

/// Harmonics the additive generator uses at a base pitch: cut above
/// ABORT_FREQUENCY and capped at 32.
pub open spec fn additive_overtones_spec(base_pitch: int) -> int {
    let mo = 786432000int / base_pitch;
    if mo > 32 {
        32
    } else {
        mo
    }
}

/// The clipped-to-i32 magnitude-scaled wave value at one phase.
fn additive_wave_value(phase: u32, f1: i32, f2: i32, pitch_hz: i32, ot: usize, mag: i32) -> (r: i32)
    requires
        phase < PHASE_ONE,
        FORMANT_MIN <= f1 <= FORMANT_MAX,
        FORMANT_MIN <= f2 <= FORMANT_MAX,
        0 < pitch_hz <= 54000,
        ot <= 32,
        0 <= mag <= 32768,
    ensures
        clip_spec(r as int) == clip_spec(q15(additive_wave_spec(
            phase as int, f1 as int, f2 as int, pitch_hz as int, ot as int) * mag)),
{
    let ghost ph: int = phase as int;
    let mut sum: i64 = 0;
    let mut j: usize = 0;
    while j < ot
        invariant
            j <= ot,
            ot <= 32,
            phase < PHASE_ONE,
            ph == phase as int,
            FORMANT_MIN <= f1 <= FORMANT_MAX,
            FORMANT_MIN <= f2 <= FORMANT_MAX,
            0 < pitch_hz <= 54000,
            sum == additive_sum_spec(ph, f1 as int, f2 as int, pitch_hz as int, j as int),
            -1073676289 * j <= sum <= 1073676289 * j,
        decreases ot - j,
    {
        let flt = filter_value(f1, f2, pitch_hz, j);
        assert(-32767 <= PULSE0_1[j as int] <= 32767);
        let pf = tdiv64(mul64(PULSE0_1[j] as i64, flt), 32768);
        proof {
            assert(-(32767 * 0x4000_0000) <= PULSE0_1[j as int] * flt <= 32767 * 0x4000_0000)
                by (nonlinear_arith)
                requires
                    -32767 <= PULSE0_1[j as int] <= 32767,
                    0 <= flt <= 0x4000_0000,
            {}
            lemma_tdiv_bound(PULSE0_1[j as int] * flt, 32768, (32767 * 0x4000_0000) as int);
            assert(((32767 * 0x4000_0000) as int) / 32768 == 1073709056);
        }
        proof {
            assert(0 <= (phase as int) * (j as int) < 0x10_0000_0000) by (nonlinear_arith)
                requires
                    0 <= (phase as int) < 16777216,
                    0 <= (j as int) <= 32,
            {}
        }
        let pjw: u64 = (phase as u64) * (j as u64) + (PHASE_STREWING as u64);
        let pj = (pjw % (PHASE_ONE as u64)) as u32;
        proof {
            assert(pj as int == (ph * (j as int) + PHASE_STREWING as int) % (PHASE_ONE as int));
        }
        let ps = pseudo_sine(pj);
        let t = tdiv64(mul64(pf, ps as i64), 32768);
        proof {
            assert(-(1073709056 * 32767) <= pf * ps <= 1073709056 * 32767) by (nonlinear_arith)
                requires
                    -1073709056 <= pf <= 1073709056,
                    -32767 <= ps <= 32767,
            {}
            lemma_tdiv_bound(pf * ps, 32768, (1073709056 * 32767) as int);
            assert(((1073709056 * 32767) as int) / 32768 == 1073676289);
            assert(additive_sum_spec(ph, f1 as int, f2 as int, pitch_hz as int, j + 1)
                == additive_sum_spec(ph, f1 as int, f2 as int, pitch_hz as int, j as int)
                    + q15(q15(PULSE0_1[j as int] * filter_spec(f1 as int, f2 as int, pitch_hz as int, j as int))
                        * pseudo_sine_spec((ph * (j as int) + PHASE_STREWING as int) % (PHASE_ONE as int))));
        }
        sum = sum + t;
        j += 1;
    }
    let w4: i64 = 4 * sum;
    proof {
        assert(-0x1000_0000_0000_0000 <= w4 * mag <= 0x1000_0000_0000_0000) by (nonlinear_arith)
            requires
                -137430564992 <= w4 <= 137430564992,
                0 <= mag <= 32768,
        {}
    }
    let wq: i64 = q15_div(w4 * (mag as i64));
    proof {
        lemma_tdiv_scale_le(w4 as int, mag as int, 32768);
    }
    if wq > 1073741824 {
        1073741824
    } else if wq < -1073741824 {
        -1073741824
    } else {
        wq as i32
    }
}

} // verus!
