//
//  va_voice.rs
//  Musical Sound Generator Framework
//      Virtual Analog Voice Class
//
//  One sounding note of the virtual-analog instrument: oscillator,
//  envelope and modulator, the per-note volume, and the damp machinery
//  that retires the voice.
//
use vstd::prelude::*;

use crate::{AUDIO_FRAME_PER_CONTROL, DAMP_LIMIT_DEPTH, MAX_BUFFER_SIZE, PHASE_ONE};
use crate::msgf_aeg::{Aeg, aeg_iter_spec, move_to_attack_spec, move_to_release_spec};
use crate::msgf_afrm::{AudioFrame, clip_spec};
use crate::msgf_cfrm::{CtrlFrame, seq_max0};
use crate::msgf_fp::{q15, q15_div, mul64};
use crate::msgf_lfo::{Lfo, lfo_iter_spec, lfo_out_spec, lfo_after_prm_spec, calc_freq_spec, wave_coef_spec};
use crate::msgf_osc::{Osc, wave_spec, phase_at_spec, delta_phase_spec, max_overtone_spec, cnt_pitch_spec, CENTS_LIMIT};
use crate::msgf_voice::{NoteStatus, DAMP_TIME, damp_gain_spec, damp_gain, damp_processed_spec,
    damp_counter_after_spec, damp_ended_after_spec};
use crate::va_prm::{SynthParameter, synth_prm_wf};

verus! {

/// The Q15 gain of a note at a channel volume and expression, with the
/// four-bit polyphony headroom trim.
pub open spec fn calc_vol_spec(vol: int, exp: int) -> int {
    (2048 * vol * exp) / 16384
}

/// The modulator's control block: one output value per control sample.
pub open spec fn lfo_block_spec(l0: Lfo, cn: int) -> Seq<i32> {
    Seq::new(cn as nat, |k: int| lfo_out_spec(lfo_iter_spec(l0, k)) as i32)
}

/// The oscillator's clipped output at frame i of a block of n frames.
pub open spec fn osc_out_spec(v: VoiceVa, i: int, n: int) -> int {
    clip_spec(wave_spec(
        v.osc.prms_variable.wv_type,
        phase_at_spec(
            v.osc.next_phase as int,
            delta_phase_spec(v.osc.base_pitch as int, v.osc.cnt_ratio as int),
            v.osc.pmd as int,
            lfo_block_spec(v.lfo, n / (AUDIO_FRAME_PER_CONTROL as int)),
            i),
        max_overtone_spec(v.osc.base_pitch as int)))
}

/// The frame after the envelope and note volume are applied.
pub open spec fn vol_out_spec(v: VoiceVa, i: int, n: int) -> int {
    clip_spec(q15(osc_out_spec(v, i, n) * q15(
        v.max_note_vol * aeg_iter_spec(v.aeg, i / (AUDIO_FRAME_PER_CONTROL as int) + 1).crnt_value)))
}

/// The frame the block finally carries: damped while the voice fades.
pub open spec fn voice_sample_spec(v: VoiceVa, i: int, n: int) -> int {
    if v.status == NoteStatus::DuringDamp && i < damp_processed_spec(v.damp_counter as int, n) {
        clip_spec(q15(vol_out_spec(v, i, n) * damp_gain_spec(v.damp_counter as int + i)))
    } else {
        vol_out_spec(v, i, n)
    }
}

/// The envelope's block maximum, which decides whether a quiet voice is
/// sent into the damp fade.
pub open spec fn aeg_block_max_spec(a0: Aeg, cn: int) -> int {
    seq_max0(Seq::new(cn as nat, |k: int| aeg_iter_spec(a0, k + 1).crnt_value), cn)
}

pub struct VoiceVa {
    pub note: u8,
    pub vel: u8,
    pub status: NoteStatus,
    pub damp_counter: u32,
    pub lvl_check_buf: AudioFrame,
    pub osc: Osc,
    pub aeg: Aeg,
    pub lfo: Lfo,
    pub max_note_vol: i32,  //  Q15
    pub ended: bool,
}

impl VoiceVa {
    pub open spec fn wf(self) -> bool {
        &&& self.osc.wf()
        &&& self.aeg.wf()
        &&& self.lfo.wf()
        &&& self.lvl_check_buf.wf()
        &&& 0 <= self.max_note_vol <= 32768
        &&& self.damp_counter <= DAMP_TIME + 1
        &&& (self.damp_counter > DAMP_TIME ==> self.ended)
    }

    pub fn new(note: u8, vel: u8, pmd: i32, pit: i32, vol: u8, exp: u8, prms: &SynthParameter)
        -> (r: VoiceVa)
        requires
            synth_prm_wf(*prms),
            0 <= pmd <= 32768,
            -CENTS_LIMIT <= pit <= CENTS_LIMIT,
        ensures
            r.wf(),
            r.note == note,
            r.vel == vel,
            r.status == NoteStatus::DuringNoteOn,
            r.damp_counter == 0,
            r.ended == false,
            r.max_note_vol as int == calc_vol_spec(vol as int, exp as int),
            r.osc.prms_variable == prms.osc,
            r.osc.pmd == pmd,
            r.osc.base_pitch == crate::msgf_osc::base_pitch_spec(
                prms.osc.coarse_tune as int, prms.osc.fine_tune as int, note as int),
            r.osc.cnt_ratio == cnt_pitch_spec(pit as int),
            r.osc.next_phase == 0,
            r.aeg.prms == prms.aeg,
            r.aeg.state == crate::msgf_aeg::EgState::NotYet,
            r.aeg.crnt_value == 0,
            r.lfo.dac_counter == 0,
            r.lfo.next_phase == 0,
            r.lfo.delta_phase == calc_freq_spec(prms.lfo.freq as int),
            (r.lfo.x1 as int, r.lfo.x2 as int, r.lfo.y as int, r.lfo.z as int)
                == wave_coef_spec(prms.lfo.wave),
            r.lfo.direction == prms.lfo.direction,
            r.lfo.fadein_time == prms.lfo.fadein_time,
            r.lfo.delay_time == prms.lfo.delay_time,
    {
        VoiceVa {
            note,
            vel,
            status: NoteStatus::DuringNoteOn,
            damp_counter: 0,
            lvl_check_buf: AudioFrame::new(441, MAX_BUFFER_SIZE),
            osc: Osc::new(&prms.osc, note, pmd, pit),
            aeg: Aeg::new(&prms.aeg),
            lfo: Lfo::new(&prms.lfo),
            max_note_vol: VoiceVa::calc_vol(vol, exp),
            ended: false,
        }
    }

    /// Executable form of calc_vol_spec.
    pub fn calc_vol(vol: u8, exp: u8) -> (r: i32)
        ensures
            r as int == calc_vol_spec(vol as int, exp as int),
            0 <= r <= 8129,
    {
        let ve: i64 = crate::msgf_fp::mul64b(vol as i64, exp as i64, 255, 255);
        proof {
            assert(2048 * ((vol as int) * (exp as int)) == 2048 * (vol as int) * (exp as int))
                by (nonlinear_arith)
            {}
        }
        let t: i64 = 2048i64 * ve;
        (t / 16384) as i32
    }

    /// Arm the envelope and restart the modulator fade.
    pub fn start_sound(&mut self)
        requires
            old(self).wf(),
        ensures
            final(self).wf(),
            *final(self) == (VoiceVa {
                aeg: final(self).aeg,
                lfo: final(self).lfo,
                ..*old(self)
            }),
            final(self).aeg == (move_to_attack_spec(old(self).aeg)),
            final(self).lfo == (Lfo { dac_counter: 0, ..old(self).lfo }),
    {
        self.aeg.move_to_attack();
        self.lfo.start();
    }

    /// Release the note: the envelope heads for silence.
    pub fn note_off(&mut self)
        requires
            old(self).wf(),
        ensures
            final(self).wf(),
            *final(self) == (VoiceVa {
                status: NoteStatus::AfterNoteOff,
                aeg: final(self).aeg,
                ..*old(self)
            }),
            final(self).aeg == (move_to_release_spec(old(self).aeg)),
    {
        self.status = NoteStatus::AfterNoteOff;
        self.aeg.move_to_release();
    }

    pub fn note_num(&self) -> (r: u8)
        ensures
            r == self.note,
    {
        self.note
    }

    pub fn velocity(&self) -> (r: u8)
        ensures
            r == self.vel,
    {
        self.vel
    }

    pub fn change_pmd(&mut self, value: i32)
        requires
            old(self).wf(),
            0 <= value <= 32768,
        ensures
            final(self).wf(),
            *final(self) == (VoiceVa { osc: final(self).osc, ..*old(self) }),
            final(self).osc == (Osc { pmd: value, ..old(self).osc }),
    {
        self.osc.change_pmd(value);
    }

    pub fn amplitude(&mut self, volume: u8, expression: u8)
        requires
            old(self).wf(),
        ensures
            final(self).wf(),
            *final(self) == (VoiceVa { max_note_vol: final(self).max_note_vol, ..*old(self) }),
            final(self).max_note_vol as int == calc_vol_spec(volume as int, expression as int),
    {
        self.max_note_vol = VoiceVa::calc_vol(volume, expression);
    }

    pub fn pitch(&mut self, pitch: i32)
        requires
            old(self).wf(),
            -CENTS_LIMIT <= pitch <= CENTS_LIMIT,
        ensures
            final(self).wf(),
            *final(self) == (VoiceVa { osc: final(self).osc, ..*old(self) }),
            final(self).osc == (Osc { cnt_ratio: final(self).osc.cnt_ratio, ..old(self).osc }),
            final(self).osc.cnt_ratio == cnt_pitch_spec(pitch as int),
    {
        self.osc.change_pitch(pitch);
    }

    pub fn status(&self) -> (r: NoteStatus)
        ensures
            r == self.status,
    {
        self.status
    }

    /// Send the voice into the damp fade.
    pub fn damp(&mut self)
        requires
            old(self).wf(),
        ensures
            final(self).wf(),
            *final(self) == (VoiceVa {
                status: NoteStatus::DuringDamp,
                damp_counter: 0,
                ..*old(self)
            }),
    {
        self.status = NoteStatus::DuringDamp;
        self.damp_counter = 0;
    }

    /// Route a per-voice parameter: the modulator's rate or shape.
    pub fn set_prm(&mut self, prm_type: u8, value: u8)
        requires
            old(self).wf(),
        ensures
            final(self).wf(),
            *final(self) == (VoiceVa { lfo: final(self).lfo, ..*old(self) }),
            final(self).lfo == (lfo_after_prm_spec(old(self).lfo, prm_type, value)),
    {
        match prm_type {
            0 => self.lfo.set_freq(value),
            1 => self.lfo.set_wave(value),
            _ => {}
        }
    }

    /// Render one block into abuf.  A finished voice does nothing; an
    /// active one writes voice_sample_spec at every frame, steps its
    /// oscillator, envelope and modulator by the block, and runs the
    /// end-of-life rule: a silent envelope sends the voice into damp,
    /// and a finished damp marks it ended.  Returns whether it ended.
    pub fn process(&mut self, abuf: &mut AudioFrame, in_number_frames: usize) -> (r: bool)
        requires
            old(self).wf(),
            old(abuf).wf(),
            old(abuf).sample_number == in_number_frames,
            (in_number_frames as int) % (AUDIO_FRAME_PER_CONTROL as int) == 0,
            in_number_frames <= MAX_BUFFER_SIZE,
        ensures
            final(self).wf(),
            final(abuf).wf(),
            final(abuf).capacity() == old(abuf).capacity(),
            final(abuf).sample_number == old(abuf).sample_number,
            r == final(self).ended,
            old(self).ended ==> *final(self) == *old(self) && final(abuf).samples() == old(abuf).samples(),
            !old(self).ended ==> {
                let n = in_number_frames as int;
                let cn = n / (AUDIO_FRAME_PER_CONTROL as int);
                &&& forall|i: int| 0 <= i < n
                    ==> final(abuf).samples()[i] as int == voice_sample_spec(*old(self), i, n)
                &&& forall|i: int| n <= i < old(abuf).capacity()
                    ==> final(abuf).samples()[i] == old(abuf).samples()[i]
                &&& final(self).lfo == (lfo_iter_spec(old(self).lfo, cn))
                &&& final(self).aeg == (aeg_iter_spec(old(self).aeg, cn))
                &&& final(self).osc.next_phase as int == phase_at_spec(
                        old(self).osc.next_phase as int,
                        delta_phase_spec(old(self).osc.base_pitch as int, old(self).osc.cnt_ratio as int),
                        old(self).osc.pmd as int, lfo_block_spec(old(self).lfo, cn), n)
                &&& final(self).osc == (Osc { next_phase: final(self).osc.next_phase, ..old(self).osc })
                &&& final(self).note == old(self).note
                &&& final(self).vel == old(self).vel
                &&& final(self).max_note_vol == old(self).max_note_vol
                &&& (if old(self).status != NoteStatus::DuringDamp {
                        if aeg_block_max_spec(old(self).aeg, cn) < DAMP_LIMIT_DEPTH as int {
                            final(self).status == NoteStatus::DuringDamp
                                && final(self).damp_counter == 0
                                && final(self).ended == old(self).ended
                        } else {
                            final(self).status == old(self).status
                                && final(self).damp_counter == old(self).damp_counter
                                && final(self).ended == old(self).ended
                        }
                    } else {
                        final(self).status == NoteStatus::DuringDamp
                            && final(self).damp_counter as int
                                == damp_counter_after_spec(old(self).damp_counter as int, n)
                            && final(self).ended == (old(self).ended
                                || damp_ended_after_spec(old(self).damp_counter as int, n))
                    })
            },
    {
        if self.ended {
            return true;
        }
        let ghost v0: VoiceVa = *old(self);
        let ghost n: int = in_number_frames as int;
        let cbuf_size = CtrlFrame::get_cbuf_size(in_number_frames);
        let ghost cn: int = cbuf_size as int;
        proof {
            vstd::arithmetic::div_mod::lemma_fundamental_div_mod(n, AUDIO_FRAME_PER_CONTROL as int);
        }
        let mut lbuf = CtrlFrame::new(cbuf_size);
        self.lfo.process(&mut lbuf);
        proof {
            assert(lbuf.samples() =~= lfo_block_spec(v0.lfo, cn));
        }
        self.osc.process(abuf, &lbuf);
        let mut aegbuf = CtrlFrame::new(cbuf_size);
        self.aeg.process(&mut aegbuf);
        proof {
            assert(aegbuf.samples() =~= Seq::new(cn as nat, |k: int| aeg_iter_spec(v0.aeg, k + 1).crnt_value));
        }
        let mnv = self.max_note_vol;
        let ghost after_osc: Seq<i32> = abuf.samples();
        let mut i: usize = 0;
        while i < abuf.sample_number
            invariant
                i <= abuf.sample_number,
                abuf.wf(),
                aegbuf.wf(),
                abuf.capacity() == old(abuf).capacity(),
                abuf.sample_number == old(abuf).sample_number,
                abuf.sample_number == in_number_frames,
                (in_number_frames as int) % (AUDIO_FRAME_PER_CONTROL as int) == 0,
                n == in_number_frames as int,
                cn == n / (AUDIO_FRAME_PER_CONTROL as int),
                aegbuf.sample_number == cn,
                0 <= mnv <= 32768,
                mnv == v0.max_note_vol,
                forall|k: int| 0 <= k < cn
                    ==> #[trigger] aegbuf.samples()[k] == aeg_iter_spec(v0.aeg, k + 1).crnt_value,
                forall|k: int| 0 <= k < n ==> #[trigger] after_osc[k] as int == osc_out_spec(v0, k, n),
                after_osc.len() == old(abuf).capacity(),
                forall|k: int| i <= k < old(abuf).capacity() ==> abuf.samples()[k] == after_osc[k],
                forall|k: int| 0 <= k < i
                    ==> abuf.samples()[k] as int == vol_out_spec(v0, k, n),
            decreases abuf.sample_number - i,
        {
            let aegv = aegbuf.ctrl_for_audio(i);
            proof {
                assert(-(32768 * 131072) <= (mnv as int) * (aegv as int) <= 32768 * 131072)
                    by (nonlinear_arith)
                    requires
                        0 <= mnv <= 32768,
                        -131072 <= aegv <= 131072,
                {}
                crate::msgf_fp::lemma_tdiv_bound(
                    (mnv as int) * (aegv as int), 32768, (32768 * 131072) as int);
                assert(((32768 * 131072) as int) / 32768 == 131072);
            }
            let rate = q15_div(mul64(mnv as i64, aegv as i64)) as i32;
            proof {
                assert(rate as int == q15((mnv as int) * (aegv as int)));
                let kk: int = (i as int) / (AUDIO_FRAME_PER_CONTROL as int);
                assert(0 <= kk < cn);
                assert(aegbuf.samples()[kk] == aeg_iter_spec(v0.aeg, kk + 1).crnt_value);
                assert(aegv == aegbuf.samples()[kk]);
                assert(after_osc[i as int] as int == osc_out_spec(v0, i as int, n));
                assert(abuf.samples()[i as int] == after_osc[i as int]);
            }
            abuf.mul_abuf(i, rate);
            proof {
                assert(abuf.samples()[i as int] as int == vol_out_spec(v0, i as int, n));
            }
            i += 1;
        }
        proof {
            assert(aegbuf.samples() =~= Seq::new(cn as nat, |k: int| aeg_iter_spec(v0.aeg, k + 1).crnt_value));
        }
        self.manage_note_level(abuf, &aegbuf)
    }

    /// The end-of-life rule: watch the envelope while the voice sounds,
    /// and run the quadratic fade while it damps.
    fn manage_note_level(&mut self, abuf: &mut AudioFrame, aegbuf: &CtrlFrame) -> (r: bool)
        requires
            old(self).wf(),
            old(abuf).wf(),
            aegbuf.wf(),
            !old(self).ended,
        ensures
            final(self).wf(),
            final(abuf).wf(),
            final(abuf).capacity() == old(abuf).capacity(),
            final(abuf).sample_number == old(abuf).sample_number,
            r == final(self).ended,
            *final(self) == (VoiceVa {
                status: final(self).status,
                damp_counter: final(self).damp_counter,
                lvl_check_buf: final(self).lvl_check_buf,
                ended: final(self).ended,
                ..*old(self)
            }),
            old(self).status != NoteStatus::DuringDamp ==> {
                &&& final(abuf).samples() == old(abuf).samples()
                &&& final(self).ended == false
                &&& (if seq_max0(aegbuf.samples(), aegbuf.sample_number as int) < DAMP_LIMIT_DEPTH as int {
                        final(self).status == NoteStatus::DuringDamp && final(self).damp_counter == 0
                    } else {
                        final(self).status == old(self).status
                            && final(self).damp_counter == old(self).damp_counter
                    })
            },
            old(self).status == NoteStatus::DuringDamp ==> {
                let c0 = old(self).damp_counter as int;
                let n = old(abuf).sample_number as int;
                &&& final(self).status == NoteStatus::DuringDamp
                &&& final(self).damp_counter as int == damp_counter_after_spec(c0, n)
                &&& final(self).ended == damp_ended_after_spec(c0, n)
                &&& forall|k: int| 0 <= k < n ==> final(abuf).samples()[k] as int
                    == (if k < damp_processed_spec(c0, n) {
                            clip_spec(q15(old(abuf).samples()[k] * damp_gain_spec(c0 + k)))
                        } else {
                            old(abuf).samples()[k] as int
                        })
                &&& forall|k: int| n <= k < old(abuf).capacity()
                    ==> final(abuf).samples()[k] == old(abuf).samples()[k]
            },
    {
        if self.status != NoteStatus::DuringDamp {
            let level = aegbuf.get_max_level();
            self.lvl_check_buf.put_into_abuf(level);
            if DAMP_LIMIT_DEPTH > level {
                self.damp();
            }
            self.ended
        } else {
            let ghost c0: int = self.damp_counter as int;
            let ghost nn: int = abuf.sample_number as int;
            let mut snum: usize = 0;
            while snum < abuf.sample_number && !self.ended
                invariant
                    snum <= abuf.sample_number,
                    abuf.wf(),
                    self.wf(),
                    abuf.capacity() == old(abuf).capacity(),
                    abuf.sample_number == old(abuf).sample_number,
                    nn == abuf.sample_number as int,
                    self.status == NoteStatus::DuringDamp,
                    c0 <= DAMP_TIME as int,
                    !self.ended ==> self.damp_counter as int == c0 + snum && snum as int <= damp_processed_spec(c0, nn),
                    self.ended ==> self.damp_counter as int == damp_counter_after_spec(c0, nn)
                        && damp_ended_after_spec(c0, nn) && snum as int >= damp_processed_spec(c0, nn),
                    *self == (VoiceVa {
                        damp_counter: self.damp_counter,
                        ended: self.ended,
                        ..*old(self)
                    }),
                    forall|k: int| 0 <= k < snum && k < damp_processed_spec(c0, nn)
                        ==> abuf.samples()[k] as int
                            == clip_spec(q15(old(abuf).samples()[k] * damp_gain_spec(c0 + k))),
                    forall|k: int| snum <= k < old(abuf).capacity()
                        ==> abuf.samples()[k] == old(abuf).samples()[k],
                    forall|k: int| 0 <= k < old(abuf).capacity() && k >= damp_processed_spec(c0, nn)
                        ==> abuf.samples()[k] == old(abuf).samples()[k],
                decreases abuf.sample_number - snum,
            {
                let rate: i32 = damp_gain(self.damp_counter);
                proof {
                    assert(crate::msgf_afrm::in_clip(abuf.samples()[snum as int] as int));
                }
                abuf.mul_abuf(snum, rate);
                self.damp_counter = self.damp_counter + 1;
                if self.damp_counter > DAMP_TIME {
                    self.ended = true;
                }
                snum += 1;
            }
            proof {
                if !self.ended {
                    assert(snum == abuf.sample_number);
                    assert(damp_processed_spec(c0, nn) <= nn);
                    assert(self.damp_counter as int == damp_counter_after_spec(c0, nn));
                }
            }
            self.ended
        }
    }
}

} // verus!
