//
//  sgf_voice.rs
//  Musical Sound Generator Framework
//      Sing Voice Class
//
//  The one sounding note of the singing-voice instrument: the glottal
//  oscillator, a low-pass and two formant band-passes, envelope and
//  modulator, vowel control, and the damp machinery.  Unlike the
//  polyphonic voice it can slide to a new note without reallocation.
//
use vstd::prelude::*;

use crate::{AUDIO_FRAME_PER_CONTROL, DAMP_LIMIT_DEPTH, MAX_BUFFER_SIZE};
use crate::msgf_aeg::{Aeg, aeg_iter_spec, move_to_attack_spec, move_to_release_spec};
use crate::msgf_afrm::AudioFrame;
use crate::msgf_biquad::Biquad;
use crate::msgf_cfrm::{CtrlFrame, seq_max0};
use crate::msgf_fp::tdiv;
use crate::msgf_lfo::{Lfo, lfo_iter_spec};
use crate::msgf_osc::CENTS_LIMIT;
use crate::msgf_vocal::{Vocal, portamento_step_spec};
use crate::msgf_osc::{base_pitch_spec, cnt_pitch_spec};
use crate::msgf_voice::{NoteStatus, DAMP_TIME, damp_gain, damp_processed_spec,
    damp_counter_after_spec, damp_ended_after_spec};
use crate::sgf_prm::{SynthParameter, sgf_prm_wf};
use crate::va_voice::aeg_block_max_spec;

verus! {

/// Default formant centres: the vowel "a".
pub const DEFAULT_F1: u32 = 800;

pub const DEFAULT_F2: u32 = 1200;

/// Resonance of the formant band-passes, Q16.
pub const BPF_RESO: i32 = 196608;

/// The singing voice sounds two octaves below the MIDI note number.
pub const NOTE_OFFSET: u8 = 24;

/// The Q15 gain of a note at a channel volume and expression, with the
/// singing instrument's hotter trim of 2.0 (so full volume and
/// expression reach about 1.97), clamped at 2.0.
pub open spec fn sgf_vol_spec(vol: int, exp: int) -> int {
    if (65536 * vol * exp) / 16384 > 65536 {
        65536
    } else {
        (65536 * vol * exp) / 16384
    }
}

/// The Q15 gain correction that lowers high notes (one percent per
/// semitone above middle C), floored at zero.
pub open spec fn scaling_vol_spec(note: int) -> int {
    let v = 32768 - 328 * (note - 60);
    if v < 0 {
        0
    } else if v > 65536 {
        65536
    } else {
        v
    }
}

/// The low-pass cutoff a control byte selects, in Hz, inside the
/// filter's accurate range.
pub open spec fn lpf_cutoff_spec(value: int) -> int {
    if value * 20 > 3600 {
        3600
    } else {
        value * 20
    }
}

/// The Q15 vowel coordinate a control byte selects, clamped to one.
pub open spec fn vowel_pos_spec(value: int) -> int {
    if (value - 64) * 512 > 32768 {
        32768
    } else {
        (value - 64) * 512
    }
}

/// The vowel map: position (x, y) in Q15 on the vowel square picks the
/// two formant centres, between a(800, 1200), e(500, 1900), i(300, 2300),
/// u(300, 1200) and o(500, 800), with a loudness correction.
pub open spec fn vowel_formants_spec(x: int, y: int) -> (int, int, int) {
    if x == 0 && y == 0 {
        (800, 1200, 32768)
    } else if y > x {
        if y > -x {
            (800 - tdiv(500 * y, 32768), 1200, 32768 + tdiv(y * 9830, 32768))
        } else {
            (800 + tdiv(500 * x, 32768), 1200 - tdiv(1100 * x, 32768), 32768 - tdiv(x * 9830, 32768))
        }
    } else {
        if y > -x {
            (800 - tdiv(300 * x, 32768), 1200 + tdiv(700 * x, 32768), 32768)
        } else {
            (800 + tdiv(300 * y, 32768), 1200 + tdiv(400 * y, 32768), 32768 + tdiv(y * 16384, 32768))
        }
    }
}

pub struct VoiceSgf {
    pub note: u8,
    pub vel: u8,
    pub status: NoteStatus,
    pub damp_counter: u32,
    pub lvl_check_buf: AudioFrame,
    pub vcl: Vocal,
    pub lpf: Biquad,
    pub frm1: Biquad,
    pub frm2: Biquad,
    pub aeg: Aeg,
    pub lfo: Lfo,
    pub max_note_vol: i32,   //  Q15
    pub ended: bool,
    pub vowel_x: i32,        //  Q15, -1..1
    pub vowel_y: i32,        //  Q15, -1..1
    pub fmnt_adjust_vol: i32,//  Q15
    pub scl_adjust_vol: i32, //  Q15
    pub frm1_freq: u32,      //  [Hz] centre of the first formant
    pub frm2_freq: u32,      //  [Hz] centre of the second formant
}

impl VoiceSgf {
    pub open spec fn wf(self) -> bool {
        &&& self.vcl.wf()
        &&& self.lpf.wf()
        &&& self.frm1.wf()
        &&& self.frm2.wf()
        &&& self.aeg.wf()
        &&& self.lfo.wf()
        &&& self.lvl_check_buf.wf()
        &&& 0 <= self.max_note_vol <= 65536
        &&& self.damp_counter <= DAMP_TIME + 1
        &&& (self.damp_counter > DAMP_TIME ==> self.ended)
        &&& -32768 <= self.vowel_x <= 32768
        &&& -32768 <= self.vowel_y <= 32768
        &&& 0 <= self.fmnt_adjust_vol <= 65536
        &&& 0 <= self.scl_adjust_vol <= 65536
        &&& 100 <= self.frm1_freq <= 3600
        &&& 100 <= self.frm2_freq <= 3600
    }

    pub fn new(org_note: u8, vel: u8, pmd: i32, pit: i32, vol: u8, exp: u8, prms: &SynthParameter)
        -> (r: VoiceSgf)
        requires
            sgf_prm_wf(*prms),
            0 <= pmd <= 32768,
            -CENTS_LIMIT <= pit <= CENTS_LIMIT,
            org_note >= NOTE_OFFSET,
        ensures
            r.wf(),
            r.note == org_note - NOTE_OFFSET,
            r.vel == vel,
            r.status == NoteStatus::DuringNoteOn,
            r.damp_counter == 0,
            r.ended == false,
            r.max_note_vol as int == sgf_vol_spec(vol as int, exp as int),
            r.vcl.prms_variable == prms.osc,
            r.vcl.pmd == pmd,
            r.vcl.base_pitch == base_pitch_spec(prms.osc.coarse_tune as int,
                prms.osc.fine_tune as int, (org_note - NOTE_OFFSET) as int),
            r.vcl.cnt_ratio == cnt_pitch_spec(pit as int),
            r.vowel_x == 0 && r.vowel_y == 0,
            r.fmnt_adjust_vol == 32768,
            r.scl_adjust_vol as int == scaling_vol_spec((org_note - NOTE_OFFSET) as int),
            r.frm1_freq == DEFAULT_F1 && r.frm2_freq == DEFAULT_F2,
    {
        let real_note = org_note - NOTE_OFFSET;
        VoiceSgf {
            note: real_note,
            vel,
            status: NoteStatus::DuringNoteOn,
            damp_counter: 0,
            lvl_check_buf: AudioFrame::new(441, MAX_BUFFER_SIZE),
            vcl: Vocal::new(&prms.osc, real_note, pmd, pit),
            lpf: Biquad::new(),
            frm1: Biquad::new(),
            frm2: Biquad::new(),
            aeg: Aeg::new(&prms.aeg),
            lfo: Lfo::new(&prms.lfo),
            max_note_vol: VoiceSgf::calc_vol(vol, exp),
            ended: false,
            vowel_x: 0,
            vowel_y: 0,
            fmnt_adjust_vol: 32768,
            scl_adjust_vol: VoiceSgf::calc_scaling_vol(real_note),
            frm1_freq: DEFAULT_F1,
            frm2_freq: DEFAULT_F2,
        }
    }

    /// Executable form of sgf_vol_spec.
    pub fn calc_vol(vol: u8, exp: u8) -> (r: i32)
        ensures
            r as int == sgf_vol_spec(vol as int, exp as int),
            0 <= r <= 65536,
    {
        let ve: i64 = crate::msgf_fp::mul64b(vol as i64, exp as i64, 255, 255);
        proof {
            assert(65536 * ((vol as int) * (exp as int)) == 65536 * (vol as int) * (exp as int))
                by (nonlinear_arith)
            {}
        }
        let t: i64 = (65536i64 * ve) / 16384;
        if t > 65536 {
            65536
        } else {
            t as i32
        }
    }

    /// Executable form of scaling_vol_spec.
    pub fn calc_scaling_vol(note: u8) -> (r: i32)
        ensures
            r as int == scaling_vol_spec(note as int),
            0 <= r <= 65536,
    {
        let v: i32 = 32768 - 328 * (note as i32 - 60);
        if v < 0 {
            0
        } else if v > 65536 {
            65536
        } else {
            v
        }
    }

    /// Arm the envelope, set the filters for the default vowel, and
    /// restart the modulator fade.
    pub fn start_sound(&mut self)
        requires
            old(self).wf(),
        ensures
            final(self).wf(),
            final(self).aeg == (move_to_attack_spec(old(self).aeg)),
            final(self).lfo == (Lfo { dac_counter: 0, ..old(self).lfo }),
            final(self).frm1_freq == DEFAULT_F1,
            final(self).frm2_freq == DEFAULT_F2,
            final(self).lpf.b0 == 16384 && final(self).lpf.a1 == 0 && final(self).lpf.a2 == 0,
            final(self).note == old(self).note,
            final(self).vel == old(self).vel,
            final(self).status == old(self).status,
            final(self).damp_counter == old(self).damp_counter,
            final(self).ended == old(self).ended,
            final(self).vcl == old(self).vcl,
            final(self).max_note_vol == old(self).max_note_vol,
            final(self).vowel_x == old(self).vowel_x,
            final(self).vowel_y == old(self).vowel_y,
            final(self).fmnt_adjust_vol == old(self).fmnt_adjust_vol,
            final(self).scl_adjust_vol == old(self).scl_adjust_vol,
    {
        self.aeg.move_to_attack();
        self.lpf.set_thru();
        self.frm1.set_bpf(DEFAULT_F1, BPF_RESO);
        self.frm1_freq = DEFAULT_F1;
        self.frm2.set_bpf(DEFAULT_F2, BPF_RESO);
        self.frm2_freq = DEFAULT_F2;
        self.lfo.start();
    }

    /// Reuse the sounding voice for another note: glide the pitch, rearm
    /// the envelope and restart the modulator; nothing is reallocated.
    pub fn slide(&mut self, note: u8, vel: u8)
        requires
            old(self).wf(),
            note >= NOTE_OFFSET,
        ensures
            final(self).wf(),
            final(self).note == note - NOTE_OFFSET,
            final(self).vel == vel,
            final(self).status == NoteStatus::DuringNoteOn,
            final(self).damp_counter == 0,
            final(self).vcl.target_pitch == base_pitch_spec(
                old(self).vcl.prms_variable.coarse_tune as int,
                old(self).vcl.prms_variable.fine_tune as int, (note - NOTE_OFFSET) as int),
            final(self).vcl.base_pitch == old(self).vcl.base_pitch,
            final(self).vcl.cnt_ratio == old(self).vcl.cnt_ratio,
            final(self).aeg == (move_to_attack_spec(old(self).aeg)),
            final(self).lfo == (Lfo { dac_counter: 0, ..old(self).lfo }),
            final(self).ended == old(self).ended,
            final(self).scl_adjust_vol as int == scaling_vol_spec((note - NOTE_OFFSET) as int),
            final(self).max_note_vol == old(self).max_note_vol,
    {
        let real_note = note - NOTE_OFFSET;
        self.note = real_note;
        self.vel = vel;
        self.status = NoteStatus::DuringNoteOn;
        self.damp_counter = 0;
        self.vcl.change_note(real_note);
        self.aeg.move_to_attack();
        self.lfo.start();
        self.scl_adjust_vol = VoiceSgf::calc_scaling_vol(real_note);
    }

    /// Release the note: the envelope heads for silence.
    pub fn note_off(&mut self)
        requires
            old(self).wf(),
        ensures
            final(self).wf(),
            final(self).status == NoteStatus::AfterNoteOff,
            final(self).aeg == (move_to_release_spec(old(self).aeg)),
            *final(self) == (VoiceSgf {
                status: NoteStatus::AfterNoteOff,
                aeg: final(self).aeg,
                ..*old(self)
            }),
    {
        self.status = NoteStatus::AfterNoteOff;
        self.aeg.move_to_release();
    }

    pub fn note_num(&self) -> (r: u8)
        requires
            self.note <= 127 - NOTE_OFFSET,
        ensures
            r == self.note + NOTE_OFFSET,
    {
        self.note + NOTE_OFFSET
    }

    pub fn velocity(&self) -> (r: u8)
        ensures
            r == self.vel,
    {
        self.vel
    }

    pub fn change_pmd(&mut self, value: i32)
        requires
            old(self).wf(),
            0 <= value <= 32768,
        ensures
            final(self).wf(),
            final(self).vcl == (Vocal { pmd: value, ..old(self).vcl }),
            *final(self) == (VoiceSgf { vcl: final(self).vcl, ..*old(self) }),
    {
        self.vcl.change_pmd(value);
    }

    pub fn amplitude(&mut self, volume: u8, expression: u8)
        requires
            old(self).wf(),
        ensures
            final(self).wf(),
            final(self).max_note_vol as int == sgf_vol_spec(volume as int, expression as int),
            *final(self) == (VoiceSgf { max_note_vol: final(self).max_note_vol, ..*old(self) }),
    {
        self.max_note_vol = VoiceSgf::calc_vol(volume, expression);
    }

    pub fn pitch(&mut self, pitch: i32)
        requires
            old(self).wf(),
            -CENTS_LIMIT <= pitch <= CENTS_LIMIT,
        ensures
            final(self).wf(),
            final(self).vcl.cnt_ratio == cnt_pitch_spec(pitch as int),
            final(self).vcl == (Vocal { cnt_ratio: final(self).vcl.cnt_ratio, ..old(self).vcl }),
            *final(self) == (VoiceSgf { vcl: final(self).vcl, ..*old(self) }),
    {
        self.vcl.change_pitch(pitch);
    }

    pub fn status(&self) -> (r: NoteStatus)
        ensures
            r == self.status,
    {
        self.status
    }

    /// Send the voice into the damp fade.
    pub fn damp(&mut self)
        requires
            old(self).wf(),
        ensures
            final(self).wf(),
            *final(self) == (VoiceSgf {
                status: NoteStatus::DuringDamp,
                damp_counter: 0,
                ..*old(self)
            }),
    {
        self.status = NoteStatus::DuringDamp;
        self.damp_counter = 0;
    }

    /// Route a per-voice parameter: the low-pass cutoff, or the vowel
    /// position whose formant centres retune the band-passes.
    pub fn set_prm(&mut self, prm_type: u8, value: u8)
        requires
            old(self).wf(),
        ensures
            final(self).wf(),
            final(self).status == old(self).status,
            final(self).ended == old(self).ended,
            final(self).vcl == old(self).vcl,
            final(self).aeg == old(self).aeg,
            final(self).lfo == old(self).lfo,
            final(self).max_note_vol == old(self).max_note_vol,
            final(self).note == old(self).note,
            final(self).damp_counter == old(self).damp_counter,
            prm_type == 0 ==> *final(self) == (VoiceSgf { lpf: final(self).lpf, ..*old(self) })
                && crate::msgf_biquad::lpf_coefs_hold(final(self).lpf,
                    lpf_cutoff_spec(value as int), 65536),
            prm_type == 1 ==> *final(self) == *old(self),
            prm_type == 2 ==> final(self).vowel_x == vowel_pos_spec(value as int)
                && final(self).vowel_y == old(self).vowel_y
                && final(self).lpf == old(self).lpf
                && formants_hold(*final(self))
                && formants_follow_vowel(*final(self)),
            prm_type == 3 ==> final(self).vowel_y == vowel_pos_spec(value as int)
                && final(self).vowel_x == old(self).vowel_x
                && final(self).lpf == old(self).lpf
                && formants_hold(*final(self))
                && formants_follow_vowel(*final(self)),
            prm_type > 3 ==> *final(self) == *old(self),
    {
        match prm_type {
            0 => {
                let c0 = (value as u32) * 20;
                let cutoff = if c0 > 3600 { 3600 } else { c0 };
                self.lpf.set_lpf(cutoff, 65536);
            }
            1 => {}
            2 => {
                let x = (value as i32 - 64) * 512;
                self.vowel_x = if x > 32768 { 32768 } else { x };
                self.calc_formant();
            }
            3 => {
                let y = (value as i32 - 64) * 512;
                self.vowel_y = if y > 32768 { 32768 } else { y };
                self.calc_formant();
            }
            _ => {}
        }
    }

    /// Retune the formant band-passes from the vowel position.
    fn calc_formant(&mut self)
        requires
            old(self).wf(),
        ensures
            final(self).wf(),
            final(self).status == old(self).status,
            final(self).ended == old(self).ended,
            final(self).note == old(self).note,
            final(self).vel == old(self).vel,
            final(self).damp_counter == old(self).damp_counter,
            final(self).vcl == old(self).vcl,
            final(self).vowel_x == old(self).vowel_x,
            final(self).vowel_y == old(self).vowel_y,
            final(self).max_note_vol == old(self).max_note_vol,
            final(self).scl_adjust_vol == old(self).scl_adjust_vol,
            final(self).lpf == old(self).lpf,
            final(self).aeg == old(self).aeg,
            final(self).lfo == old(self).lfo,
            formants_hold(*final(self)),
            formants_follow_vowel(*final(self)),
    {
        let x = self.vowel_x;
        let y = self.vowel_y;
        let (f1, f2, adj) = VoiceSgf::vowel_formants(x, y);
        self.fmnt_adjust_vol = adj;
        self.frm1.set_bpf(f1, BPF_RESO);
        self.frm1_freq = f1;
        self.frm2.set_bpf(f2, BPF_RESO);
        self.frm2_freq = f2;
    }

    /// Executable form of vowel_formants_spec.
    pub fn vowel_formants(x: i32, y: i32) -> (r: (u32, u32, i32))
        requires
            -32768 <= x <= 32768,
            -32768 <= y <= 32768,
        ensures
            (r.0 as int, r.1 as int, r.2 as int) == vowel_formants_spec(x as int, y as int),
            100 <= r.0 <= 3600,
            100 <= r.1 <= 3600,
            0 <= r.2 <= 65536,
    {
        proof {
            crate::msgf_fp::lemma_tdiv_scale_le(500, 1, 32768);
        }
        if x == 0 && y == 0 {
            (800, 1200, 32768)
        } else if y > x {
            if y > -x {
                let d1 = crate::msgf_fp::tdiv64(500 * y as i64, 32768);
                let da = crate::msgf_fp::tdiv64(y as i64 * 9830, 32768);
                proof {
                    crate::msgf_fp::lemma_tdiv_bound(500 * (y as int), 32768, (500 * 32768) as int);
                    crate::msgf_fp::lemma_tdiv_bound((y as int) * 9830, 32768, (32768 * 9830) as int);
                }
                ((800 - d1 as i32) as u32, 1200, 32768 + da as i32)
            } else {
                let d1 = crate::msgf_fp::tdiv64(500 * x as i64, 32768);
                let d2 = crate::msgf_fp::tdiv64(1100 * x as i64, 32768);
                let da = crate::msgf_fp::tdiv64(x as i64 * 9830, 32768);
                proof {
                    crate::msgf_fp::lemma_tdiv_bound(500 * (x as int), 32768, (500 * 32768) as int);
                    crate::msgf_fp::lemma_tdiv_bound(1100 * (x as int), 32768, (1100 * 32768) as int);
                    crate::msgf_fp::lemma_tdiv_bound((x as int) * 9830, 32768, (32768 * 9830) as int);
                }
                ((800 + d1 as i32) as u32, (1200 - d2 as i32) as u32, 32768 - da as i32)
            }
        } else {
            if y > -x {
                let d1 = crate::msgf_fp::tdiv64(300 * x as i64, 32768);
                let d2 = crate::msgf_fp::tdiv64(700 * x as i64, 32768);
                proof {
                    crate::msgf_fp::lemma_tdiv_bound(300 * (x as int), 32768, (300 * 32768) as int);
                    crate::msgf_fp::lemma_tdiv_bound(700 * (x as int), 32768, (700 * 32768) as int);
                }
                ((800 - d1 as i32) as u32, (1200 + d2 as i32) as u32, 32768)
            } else {
                let d1 = crate::msgf_fp::tdiv64(300 * y as i64, 32768);
                let d2 = crate::msgf_fp::tdiv64(400 * y as i64, 32768);
                let da = crate::msgf_fp::tdiv64(y as i64 * 16384, 32768);
                proof {
                    crate::msgf_fp::lemma_tdiv_bound(300 * (y as int), 32768, (300 * 32768) as int);
                    crate::msgf_fp::lemma_tdiv_bound(400 * (y as int), 32768, (400 * 32768) as int);
                    crate::msgf_fp::lemma_tdiv_bound((y as int) * 16384, 32768, (32768 * 16384) as int);
                }
                ((800 + d1 as i32) as u32, (1200 + d2 as i32) as u32, 32768 + da as i32)
            }
        }
    }

    /// Render one block into abuf: glottal wave, filters, envelope and
    /// volume, then the end-of-life rule.  The control state evolves
    /// exactly as the parts' own block functions say; a silent envelope
    /// sends the voice into damp, and a finished damp ends it.
    #[verifier::rlimit(100)]
    #[verifier::spinoff_prover]
    pub fn process(&mut self, abuf: &mut AudioFrame, in_number_frames: usize) -> (r: bool)
        requires
            old(self).wf(),
            old(abuf).wf(),
            old(abuf).sample_number == in_number_frames,
            (in_number_frames as int) % (AUDIO_FRAME_PER_CONTROL as int) == 0,
            in_number_frames <= MAX_BUFFER_SIZE,
        ensures
            final(self).wf(),
            final(abuf).wf(),
            final(abuf).capacity() == old(abuf).capacity(),
            final(abuf).sample_number == old(abuf).sample_number,
            r == final(self).ended,
            sgf_voice_processed_rel(*old(self), *final(self), in_number_frames as int),
            r == sgf_voice_would_end(*old(self), in_number_frames as int),
            old(self).ended ==> *final(self) == *old(self) && final(abuf).samples() == old(abuf).samples(),
            !old(self).ended ==> {
                let n = in_number_frames as int;
                let cn = n / (AUDIO_FRAME_PER_CONTROL as int);
                &&& final(self).lfo == (lfo_iter_spec(old(self).lfo, cn))
                &&& final(self).aeg == (aeg_iter_spec(old(self).aeg, cn))
                &&& final(self).vcl.base_pitch as int == portamento_step_spec(
                        old(self).vcl.base_pitch as int, old(self).vcl.target_pitch as int)
                &&& final(self).vcl.target_pitch == old(self).vcl.target_pitch
                &&& final(self).vcl.cnt_ratio == old(self).vcl.cnt_ratio
                &&& final(self).vcl.pmd == old(self).vcl.pmd
                &&& final(self).note == old(self).note
                &&& final(self).vel == old(self).vel
                &&& final(self).max_note_vol == old(self).max_note_vol
                &&& final(self).frm1_freq == old(self).frm1_freq
                &&& final(self).frm2_freq == old(self).frm2_freq
                &&& (if old(self).status != NoteStatus::DuringDamp {
                        if aeg_block_max_spec(old(self).aeg, cn) < DAMP_LIMIT_DEPTH as int {
                            final(self).status == NoteStatus::DuringDamp
                                && final(self).damp_counter == 0
                                && final(self).ended == old(self).ended
                        } else {
                            final(self).status == old(self).status
                                && final(self).damp_counter == old(self).damp_counter
                                && final(self).ended == old(self).ended
                        }
                    } else {
                        final(self).status == NoteStatus::DuringDamp
                            && final(self).damp_counter as int
                                == damp_counter_after_spec(old(self).damp_counter as int, n)
                            && final(self).ended == (old(self).ended
                                || damp_ended_after_spec(old(self).damp_counter as int, n))
                    })
            },
    {
        if self.ended {
            return true;
        }
        let ghost v0: VoiceSgf = *old(self);
        let ghost n: int = in_number_frames as int;
        let cbuf_size = CtrlFrame::get_cbuf_size(in_number_frames);
        let ghost cn: int = cbuf_size as int;
        proof {
            vstd::arithmetic::div_mod::lemma_fundamental_div_mod(n, AUDIO_FRAME_PER_CONTROL as int);
        }
        let mut lbuf = CtrlFrame::new(cbuf_size);
        self.lfo.process(&mut lbuf);
        self.vcl.process(abuf, &lbuf);
        self.lpf.process_a(abuf);
        self.frm1.process_a(abuf);
        self.frm2.process_a(abuf);
        let mut aegbuf = CtrlFrame::new(cbuf_size);
        self.aeg.process(&mut aegbuf);
        proof {
            assert(aegbuf.samples() =~= Seq::new(cn as nat,
                |k: int| aeg_iter_spec(v0.aeg, k + 1).crnt_value));
        }
        let t1: i64 = crate::msgf_fp::mul64b(self.max_note_vol as i64, self.fmnt_adjust_vol as i64,
            65536, 65536);
        let t2: i64 = crate::msgf_fp::q15_div(t1);
        proof {
            crate::msgf_fp::lemma_tdiv_bound(
                (self.max_note_vol as int) * (self.fmnt_adjust_vol as int), 32768,
                (65536 * 65536) as int);
            assert(((65536 * 65536) as int) / 32768 == 131072);
        }
        let t3: i64 = crate::msgf_fp::q15_div(crate::msgf_fp::mul64b(t2, self.scl_adjust_vol as i64,
            131072, 65536));
        proof {
            crate::msgf_fp::lemma_tdiv_bound(
                (t2 as int) * (self.scl_adjust_vol as int), 32768, (131072 * 65536) as int);
            assert(((131072 * 65536) as int) / 32768 == 262144);
        }
        let tmpvol: i32 = t3 as i32;
        let mut i: usize = 0;
        while i < abuf.sample_number
            invariant
                i <= abuf.sample_number,
                abuf.wf(),
                aegbuf.wf(),
                abuf.capacity() == old(abuf).capacity(),
                abuf.sample_number == old(abuf).sample_number,
                abuf.sample_number == in_number_frames,
                (in_number_frames as int) % (AUDIO_FRAME_PER_CONTROL as int) == 0,
                n == in_number_frames as int,
                cn == n / (AUDIO_FRAME_PER_CONTROL as int),
                aegbuf.sample_number == cn,
                -262144 <= tmpvol <= 262144,
            decreases abuf.sample_number - i,
        {
            let aegv = aegbuf.ctrl_for_audio(i);
            proof {
                assert(-(262144 * 131072) <= (tmpvol as int) * (aegv as int) <= 262144 * 131072)
                    by (nonlinear_arith)
                    requires
                        -262144 <= tmpvol <= 262144,
                        -131072 <= aegv <= 131072,
                {}
                crate::msgf_fp::lemma_tdiv_bound(
                    (tmpvol as int) * (aegv as int), 32768, (262144 * 131072) as int);
            }
            let rate = crate::msgf_fp::q15_div(crate::msgf_fp::mul64(tmpvol as i64, aegv as i64)) as i32;
            abuf.mul_abuf(i, rate);
            i += 1;
        }
        self.manage_note_level(abuf, &aegbuf)
    }

    /// The end-of-life rule, as in the polyphonic voice.
    fn manage_note_level(&mut self, abuf: &mut AudioFrame, aegbuf: &CtrlFrame) -> (r: bool)
        requires
            old(self).wf(),
            old(abuf).wf(),
            aegbuf.wf(),
            !old(self).ended,
        ensures
            final(self).wf(),
            final(abuf).wf(),
            final(abuf).capacity() == old(abuf).capacity(),
            final(abuf).sample_number == old(abuf).sample_number,
            r == final(self).ended,
            final(self).note == old(self).note,
            final(self).vel == old(self).vel,
            final(self).vcl == old(self).vcl,
            final(self).lpf == old(self).lpf,
            final(self).frm1 == old(self).frm1,
            final(self).frm2 == old(self).frm2,
            final(self).aeg == old(self).aeg,
            final(self).lfo == old(self).lfo,
            final(self).max_note_vol == old(self).max_note_vol,
            final(self).vowel_x == old(self).vowel_x,
            final(self).vowel_y == old(self).vowel_y,
            final(self).fmnt_adjust_vol == old(self).fmnt_adjust_vol,
            final(self).scl_adjust_vol == old(self).scl_adjust_vol,
            final(self).frm1_freq == old(self).frm1_freq,
            final(self).frm2_freq == old(self).frm2_freq,
            old(self).status != NoteStatus::DuringDamp ==> {
                &&& final(self).ended == false
                &&& (if seq_max0(aegbuf.samples(), aegbuf.sample_number as int) < DAMP_LIMIT_DEPTH as int {
                        final(self).status == NoteStatus::DuringDamp && final(self).damp_counter == 0
                    } else {
                        final(self).status == old(self).status
                            && final(self).damp_counter == old(self).damp_counter
                    })
            },
            old(self).status == NoteStatus::DuringDamp ==> {
                let c0 = old(self).damp_counter as int;
                let n = old(abuf).sample_number as int;
                &&& final(self).status == NoteStatus::DuringDamp
                &&& final(self).damp_counter as int == damp_counter_after_spec(c0, n)
                &&& final(self).ended == damp_ended_after_spec(c0, n)
            },
    {
        if self.status != NoteStatus::DuringDamp {
            let level = aegbuf.get_max_level();
            self.lvl_check_buf.put_into_abuf(level);
            if DAMP_LIMIT_DEPTH > level {
                self.damp();
            }
            self.ended
        } else {
            let ghost c0: int = self.damp_counter as int;
            let ghost nn: int = abuf.sample_number as int;
            let mut snum: usize = 0;
            while snum < abuf.sample_number && !self.ended
                invariant
                    snum <= abuf.sample_number,
                    abuf.wf(),
                    self.wf(),
                    abuf.capacity() == old(abuf).capacity(),
                    abuf.sample_number == old(abuf).sample_number,
                    nn == abuf.sample_number as int,
                    self.status == NoteStatus::DuringDamp,
                    c0 <= DAMP_TIME as int,
                    !self.ended ==> self.damp_counter as int == c0 + snum
                        && snum as int <= damp_processed_spec(c0, nn),
                    self.ended ==> self.damp_counter as int == damp_counter_after_spec(c0, nn)
                        && damp_ended_after_spec(c0, nn),
                    *self == (VoiceSgf {
                        damp_counter: self.damp_counter,
                        ended: self.ended,
                        ..*old(self)
                    }),
                decreases abuf.sample_number - snum,
            {
                let rate: i32 = damp_gain(self.damp_counter);
                abuf.mul_abuf(snum, rate);
                self.damp_counter = self.damp_counter + 1;
                if self.damp_counter > DAMP_TIME {
                    self.ended = true;
                }
                snum += 1;
            }
            self.ended
        }
    }
}

/// How one rendered block relates the singing voice to its earlier
/// self: the relation of VoiceSgf::process.
pub open spec fn sgf_voice_processed_rel(pre: VoiceSgf, post: VoiceSgf, n: int) -> bool {
    if pre.ended {
        post == pre
    } else {
        let cn = n / (AUDIO_FRAME_PER_CONTROL as int);
        &&& post.lfo == (lfo_iter_spec(pre.lfo, cn))
        &&& post.aeg == (aeg_iter_spec(pre.aeg, cn))
        &&& post.vcl.base_pitch as int == portamento_step_spec(
                pre.vcl.base_pitch as int, pre.vcl.target_pitch as int)
        &&& post.vcl.target_pitch == pre.vcl.target_pitch
        &&& post.vcl.cnt_ratio == pre.vcl.cnt_ratio
        &&& post.vcl.pmd == pre.vcl.pmd
        &&& post.note == pre.note
        &&& post.vel == pre.vel
        &&& post.max_note_vol == pre.max_note_vol
        &&& post.frm1_freq == pre.frm1_freq
        &&& post.frm2_freq == pre.frm2_freq
        &&& (if pre.status != NoteStatus::DuringDamp {
                if aeg_block_max_spec(pre.aeg, cn) < crate::DAMP_LIMIT_DEPTH as int {
                    post.status == NoteStatus::DuringDamp
                        && post.damp_counter == 0
                        && post.ended == pre.ended
                } else {
                    post.status == pre.status
                        && post.damp_counter == pre.damp_counter
                        && post.ended == pre.ended
                }
            } else {
                post.status == NoteStatus::DuringDamp
                    && post.damp_counter as int
                        == damp_counter_after_spec(pre.damp_counter as int, n)
                    && post.ended == (pre.ended
                        || damp_ended_after_spec(pre.damp_counter as int, n))
            })
    }
}

/// Whether a block of n frames finishes the voice off.
pub open spec fn sgf_voice_would_end(pre: VoiceSgf, n: int) -> bool {
    pre.ended || (pre.status == NoteStatus::DuringDamp
        && damp_ended_after_spec(pre.damp_counter as int, n))
}

/// The formant band-passes carry the centres the voice believes: their
/// coefficients are exactly the band-pass setting at those centres.
pub open spec fn formants_hold(v: VoiceSgf) -> bool {
    &&& crate::msgf_biquad::bpf_coefs_hold(v.frm1, v.frm1_freq as int, BPF_RESO as int)
    &&& crate::msgf_biquad::bpf_coefs_hold(v.frm2, v.frm2_freq as int, BPF_RESO as int)
}

/// The stored formant centres and loudness correction are the vowel
/// map's values at the stored vowel position.
pub open spec fn formants_follow_vowel(v: VoiceSgf) -> bool {
    (v.frm1_freq as int, v.frm2_freq as int, v.fmnt_adjust_vol as int)
        == vowel_formants_spec(v.vowel_x as int, v.vowel_y as int)
}

} // verus!
