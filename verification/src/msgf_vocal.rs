//
//  msgf_vocal.rs
//  Musical Sound Generator Framework
//      Vocal Class
//
//  Generates the waveform of glottal vibration from a lookup table, with
//  a portamento that glides the base pitch toward a retargeted note.
//
use vstd::prelude::*;

use crate::{PHASE_ONE, AUDIO_FRAME_PER_CONTROL};
use crate::msgf_afrm::{AudioFrame, clip_spec};
use crate::msgf_cfrm::CtrlFrame;
use crate::msgf_fp::tdiv;
use crate::msgf_osc::{
    base_pitch_spec, cnt_pitch_spec, delta_phase_spec, phase_at_spec, phase_step_spec,
    clamp_unit, calc_base_pitch, calc_cnt_pitch, pseudo_sine, wave_value, limit_note,
    PITCH_MAX, RATIO_MAX, CENTS_LIMIT,
};
use crate::msgf_table::VOCAL_TABLE;

verus! {

/// Portamento speed: the fraction of the remaining pitch gap, Q15,
/// applied once per block.
pub const PRTM_SPEED: i32 = 3277;

#[derive(PartialEq, Eq, Structural, Clone, Copy)]
pub struct VocalParameter {
    pub coarse_tune: i32,  //  [semitone]
    pub fine_tune: i32,    //  [cent]
    pub lfo_depth: i32,    //  Q15; 32768 means +-1 octave
}

pub open spec fn vocal_prm_wf(p: VocalParameter) -> bool {
    &&& -128 <= p.coarse_tune <= 128
    &&& -1200 <= p.fine_tune <= 1200
    &&& 0 <= p.lfo_depth <= 32768
}

/// Linear interpolation into the glottal table at a Q24 phase.
pub open spec fn gen_wave_spec(ph: int) -> int {
    let idx = ph / 65536;
    let frac = ph % 65536;
    clamp_unit(VOCAL_TABLE[idx] + tdiv((VOCAL_TABLE[idx + 1] - VOCAL_TABLE[idx]) * frac, 65536))
}

/// One block's portamento move: step a tenth of the gap toward the
/// target and snap once within one percent of it.
pub open spec fn portamento_step_spec(base: int, target: int) -> int {
    if base == target {
        base
    } else {
        let nb = base + tdiv((target - base) * PRTM_SPEED, 32768);
        if nb * 100 < target * 101 && nb * 100 > target * 99 {
            target
        } else {
            nb
        }
    }
}

/// Executable form of gen_wave_spec.
pub fn gen_wave(phase: u32) -> (r: i32)
    requires
        phase < PHASE_ONE,
    ensures
        r == gen_wave_spec(phase as int),
        -32767 <= r <= 32767,
{
    let idx = (phase / 65536) as usize;
    let frac = (phase % 65536) as i64;
    let y0 = VOCAL_TABLE[idx];
    let y1 = VOCAL_TABLE[idx + 1];
    let t = crate::msgf_fp::tdiv64(crate::msgf_fp::mul64(y1 as i64 - y0 as i64, frac), 65536);
    let y = y0 as i64 + t;
    if y > 32767 {
        32767
    } else if y < -32767 {
        -32767
    } else {
        y as i32
    }
}

pub struct Vocal {
    pub prms_variable: VocalParameter,
    pub pmd: i32,          //  Q15
    pub base_pitch: u32,   //  Q16 [Hz]
    pub target_pitch: u32, //  Q16 [Hz], portamento goal
    pub cnt_ratio: u32,    //  Q16 bend ratio
    pub next_phase: u32,   //  Q24, 0 .. PHASE_ONE
}

impl Vocal {
    pub open spec fn wf(self) -> bool {
        &&& vocal_prm_wf(self.prms_variable)
        &&& 0 <= self.pmd <= 32768
        &&& 0 < self.base_pitch <= PITCH_MAX
        &&& 0 < self.target_pitch <= PITCH_MAX
        &&& 0 < self.cnt_ratio <= RATIO_MAX
        &&& self.next_phase < PHASE_ONE
    }

    pub fn new(prms: &VocalParameter, note: u8, pmd: i32, cnt_pitch: i32) -> (r: Vocal)
        requires
            vocal_prm_wf(*prms),
            0 <= pmd <= 32768,
            -CENTS_LIMIT <= cnt_pitch <= CENTS_LIMIT,
        ensures
            r.wf(),
            r.prms_variable == *prms,
            r.pmd == pmd,
            r.base_pitch == base_pitch_spec(prms.coarse_tune as int, prms.fine_tune as int, note as int),
            r.target_pitch == r.base_pitch,
            r.cnt_ratio == cnt_pitch_spec(cnt_pitch as int),
            r.next_phase == 0,
    {
        let bp = calc_base_pitch(prms.coarse_tune, prms.fine_tune, note);
        Vocal {
            prms_variable: *prms,
            pmd,
            base_pitch: bp,
            target_pitch: bp,
            cnt_ratio: calc_cnt_pitch(cnt_pitch),
            next_phase: 0,
        }
    }

    pub fn change_pmd(&mut self, value: i32)
        requires
            old(self).wf(),
            0 <= value <= 32768,
        ensures
            final(self).wf(),
            final(self).pmd == value,
            final(self).prms_variable == old(self).prms_variable,
            final(self).base_pitch == old(self).base_pitch,
            final(self).target_pitch == old(self).target_pitch,
            final(self).cnt_ratio == old(self).cnt_ratio,
            final(self).next_phase == old(self).next_phase,
    {
        self.pmd = value;
    }

    /// Point the portamento at another note; rendering glides toward it.
    pub fn change_note(&mut self, note: u8)
        requires
            old(self).wf(),
        ensures
            final(self).wf(),
            final(self).target_pitch == base_pitch_spec(
                old(self).prms_variable.coarse_tune as int,
                old(self).prms_variable.fine_tune as int, note as int),
            final(self).prms_variable == old(self).prms_variable,
            final(self).pmd == old(self).pmd,
            final(self).base_pitch == old(self).base_pitch,
            final(self).cnt_ratio == old(self).cnt_ratio,
            final(self).next_phase == old(self).next_phase,
    {
        self.target_pitch = calc_base_pitch(
            self.prms_variable.coarse_tune, self.prms_variable.fine_tune, note);
    }

    /// Apply a pitch offset in cents as the new bend ratio.
    pub fn change_pitch(&mut self, cnt_pitch: i32)
        requires
            old(self).wf(),
            -CENTS_LIMIT <= cnt_pitch <= CENTS_LIMIT,
        ensures
            final(self).wf(),
            final(self).cnt_ratio == cnt_pitch_spec(cnt_pitch as int),
            final(self).prms_variable == old(self).prms_variable,
            final(self).pmd == old(self).pmd,
            final(self).base_pitch == old(self).base_pitch,
            final(self).target_pitch == old(self).target_pitch,
            final(self).next_phase == old(self).next_phase,
    {
        self.cnt_ratio = calc_cnt_pitch(cnt_pitch);
    }

    /// Render one block of the glottal wave.  The base pitch first takes
    /// one portamento step toward the target; frame i then gets the
    /// clipped table value at the phase reached before it.
    pub fn process(&mut self, abuf: &mut AudioFrame, lbuf: &CtrlFrame)
        requires
            old(self).wf(),
            old(abuf).wf(),
            lbuf.wf(),
            old(abuf).sample_number <= lbuf.sample_number * (AUDIO_FRAME_PER_CONTROL as int),
        ensures
            final(self).wf(),
            final(self).prms_variable == old(self).prms_variable,
            final(self).pmd == old(self).pmd,
            final(self).target_pitch == old(self).target_pitch,
            final(self).cnt_ratio == old(self).cnt_ratio,
            final(self).base_pitch == portamento_step_spec(
                old(self).base_pitch as int, old(self).target_pitch as int),
            final(self).next_phase < PHASE_ONE,
            final(self).next_phase == phase_at_spec(
                old(self).next_phase as int,
                delta_phase_spec(final(self).base_pitch as int, old(self).cnt_ratio as int),
                old(self).pmd as int, lbuf.samples(), old(abuf).sample_number as int),
            final(abuf).wf(),
            final(abuf).capacity() == old(abuf).capacity(),
            final(abuf).sample_number == old(abuf).sample_number,
            final(abuf).cursor() == old(abuf).cursor(),
            forall|i: int| 0 <= i < old(abuf).sample_number
                ==> final(abuf).samples()[i] as int == clip_spec(gen_wave_spec(
                        phase_at_spec(
                            old(self).next_phase as int,
                            delta_phase_spec(final(self).base_pitch as int, old(self).cnt_ratio as int),
                            old(self).pmd as int, lbuf.samples(), i))),
            forall|i: int| old(abuf).sample_number <= i < old(abuf).capacity()
                ==> final(abuf).samples()[i] == old(abuf).samples()[i],
    {
        self.pitch_interporation();
        let dp = crate::msgf_osc::calc_delta_phase(self.base_pitch, self.cnt_ratio);
        let pmd = self.pmd;
        let ghost p0: int = self.next_phase as int;
        let ghost dpg: int = dp as int;
        let ghost lseq: Seq<i32> = lbuf.samples();
        let mut phase = self.next_phase;
        let mut i: usize = 0;
        while i < abuf.sample_number
            invariant
                i <= abuf.sample_number,
                phase < PHASE_ONE,
                dp < PHASE_ONE,
                0 <= pmd <= 32768,
                lbuf.wf(),
                lseq == lbuf.samples(),
                abuf.sample_number <= lbuf.sample_number * (AUDIO_FRAME_PER_CONTROL as int),
                abuf.wf(),
                abuf.capacity() == old(abuf).capacity(),
                abuf.sample_number == old(abuf).sample_number,
                abuf.cursor() == old(abuf).cursor(),
                dpg == dp as int,
                phase == phase_at_spec(p0, dpg, pmd as int, lseq, i as int),
                forall|k: int| 0 <= k < i
                    ==> abuf.samples()[k] as int == clip_spec(gen_wave_spec(
                            phase_at_spec(p0, dpg, pmd as int, lseq, k))),
                forall|k: int| i <= k < old(abuf).capacity()
                    ==> abuf.samples()[k] == old(abuf).samples()[k],
            decreases abuf.sample_number - i,
        {
            let w = gen_wave(phase);
            abuf.set_abuf(i, w);
            let l = lbuf.ctrl_for_audio(i);
            phase = crate::msgf_osc::osc_phase_step(phase, dp, l, pmd);
            proof {
                assert(phase_at_spec(p0, dpg, pmd as int, lseq, i + 1) == phase_step_spec(
                    phase_at_spec(p0, dpg, pmd as int, lseq, i as int), dpg,
                    lseq[(i as int) / (AUDIO_FRAME_PER_CONTROL as int)] as int, pmd as int));
            }
            i += 1;
        }
        self.next_phase = phase;
    }

    /// One portamento step of the base pitch toward the target.
    fn pitch_interporation(&mut self)
        requires
            old(self).wf(),
        ensures
            final(self).wf(),
            final(self).base_pitch == portamento_step_spec(
                old(self).base_pitch as int, old(self).target_pitch as int),
            final(self).prms_variable == old(self).prms_variable,
            final(self).pmd == old(self).pmd,
            final(self).target_pitch == old(self).target_pitch,
            final(self).cnt_ratio == old(self).cnt_ratio,
            final(self).next_phase == old(self).next_phase,
    {
        if self.base_pitch == self.target_pitch {
            return;
        }
        let diff: i64 = self.target_pitch as i64 - self.base_pitch as i64;
        proof {
            assert(-0x8000_0000_0000 <= (diff as int) * (PRTM_SPEED as int) <= 0x8000_0000_0000) by (nonlinear_arith)
                requires
                    -0x1_0000_0000 <= diff as int <= 0x1_0000_0000,
                    PRTM_SPEED == 3277,
            {}
        }
        let step = crate::msgf_fp::q15_div(diff * (PRTM_SPEED as i64));
        proof {
            crate::msgf_fp::lemma_tdiv_scale_le(diff as int, PRTM_SPEED as int, 32768);
        }
        let nb: i64 = self.base_pitch as i64 + step;
        let snap_lo: bool = nb * 100 > self.target_pitch as i64 * 99;
        let snap_hi: bool = nb * 100 < self.target_pitch as i64 * 101;
        if snap_lo && snap_hi {
            self.base_pitch = self.target_pitch;
        } else {
            self.base_pitch = nb as u32;
        }
    }
}

} // verus!
