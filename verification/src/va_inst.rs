//
//  va_inst.rs
//  Musical Sound Generator Framework
//      Virtual Analog Instrument Class
//
//  The polyphonic voice pool: every note-on allocates a voice, controls
//  broadcast to all held voices, and each rendered block removes at most
//  one ended voice.
//
use vstd::prelude::*;

use crate::{AUDIO_FRAME_PER_CONTROL, MAX_BUFFER_SIZE};
use crate::msgf_afrm::AudioFrame;
use crate::msgf_delay::Delay;
use crate::msgf_osc::{Osc, cnt_pitch_spec, CENTS_LIMIT};
use crate::msgf_voice::NoteStatus;
use crate::va_prm::{SynthParameter, synth_prm_wf, tone_prm, tone_prm_spec, MAX_TONE_COUNT};
use crate::msgf_delay::delay_fresh;
use crate::msgf_afrm::frame_fresh;
use crate::va_voice::{VoiceVa, calc_vol_spec, aeg_block_max_spec};

verus! {

/// The Q15 pan position a controller byte selects: 127 snaps hard right.
pub open spec fn pan_spec(value: int) -> int {
    if value >= 127 {
        32768
    } else {
        value * 256
    }
}

/// The Q15 pitch-modulation depth a modulation byte selects (up to half
/// an octave).
pub open spec fn mod_depth_spec(value: int) -> int {
    if (value * 16384) / 127 > 32768 {
        32768
    } else {
        (value * 16384) / 127
    }
}

/// The pitch offset, in cents, of a bend value with note-shift and tune
/// controllers: two semitones of bend range, a semitone per shift step,
/// and a hundred cents over the 64-step tune range.
pub open spec fn pitch_cents_spec(bend: int, tune_coarse: int, tune_fine: int) -> int {
    crate::msgf_fp::tdiv(bend * 200, 8192) + (tune_coarse - 64) * 100
        + crate::msgf_fp::tdiv((tune_fine - 64) * 100, 64)
}

/// How one rendered block relates a voice to its earlier self: the
/// relation of VoiceVa::process.
pub open spec fn voice_processed_rel(pre: VoiceVa, post: VoiceVa, n: int) -> bool {
    if pre.ended {
        post == pre
    } else {
        let cn = n / (AUDIO_FRAME_PER_CONTROL as int);
        &&& post.note == pre.note
        &&& post.vel == pre.vel
        &&& post.max_note_vol == pre.max_note_vol
        &&& post.lfo == (crate::msgf_lfo::lfo_iter_spec(pre.lfo, cn))
        &&& post.aeg == (crate::msgf_aeg::aeg_iter_spec(pre.aeg, cn))
        &&& post.osc == (Osc { next_phase: post.osc.next_phase, ..pre.osc })
        &&& (if pre.status != NoteStatus::DuringDamp {
                if aeg_block_max_spec(pre.aeg, cn) < crate::DAMP_LIMIT_DEPTH as int {
                    post.status == NoteStatus::DuringDamp && post.damp_counter == 0
                        && post.ended == pre.ended
                } else {
                    post.status == pre.status && post.damp_counter == pre.damp_counter
                        && post.ended == pre.ended
                }
            } else {
                post.status == NoteStatus::DuringDamp
                    && post.damp_counter as int
                        == crate::msgf_voice::damp_counter_after_spec(pre.damp_counter as int, n)
                    && post.ended == (pre.ended
                        || crate::msgf_voice::damp_ended_after_spec(pre.damp_counter as int, n))
            })
    }
}

/// The first index of a sounding voice with the note, or the length.
pub open spec fn find_note_spec(s: Seq<VoiceVa>, note: u8, i: int) -> int
    decreases s.len() - i,
{
    if i < 0 || i >= s.len() {
        s.len() as int
    } else if s[i].note == note && s[i].status == NoteStatus::DuringNoteOn {
        i
    } else {
        find_note_spec(s, note, i + 1)
    }
}

/// The first index of an ended voice, or the length.
pub open spec fn find_ended_spec(s: Seq<VoiceVa>, i: int) -> int
    decreases s.len() - i,
{
    if i < 0 || i >= s.len() {
        s.len() as int
    } else if s[i].ended {
        i
    } else {
        find_ended_spec(s, i + 1)
    }
}

/// Everything of the instrument but the voice pool and one named field.
pub open spec fn same_but_voices(a: InstVa, b: InstVa) -> bool {
    &&& a.vce_audio == b.vce_audio
    &&& a.inst_audio == b.inst_audio
    &&& a.delay == b.delay
    &&& a.inst_number == b.inst_number
    &&& a.prms == b.prms
    &&& a.mdlt == b.mdlt
    &&& a.pit == b.pit
    &&& a.vol == b.vol
    &&& a.pan == b.pan
    &&& a.exp == b.exp
}

/// Pan follows the controller: zero is full left, 64 splits the field
/// evenly, and 127 is full right.
pub proof fn lemma_pan_positions()
    ensures
        pan_spec(0) == 0int,
        pan_spec(64) == 16384int,
        pan_spec(127) == 32768int,
{
}

/// Under default note-shift and tune (both 64), a bend maps to exactly
/// bend * 200 / 8192 cents, and the bend of one semitone lands on the
/// tabled ratio of 2^(1/12).
pub proof fn lemma_bend_default_is_pure_cents(bend: int)
    requires
        -8192 <= bend <= 8191,
    ensures
        pitch_cents_spec(bend, 64, 64) == crate::msgf_fp::tdiv(bend * 200, 8192),
        cnt_pitch_spec(pitch_cents_spec(4096, 64, 64)) == 69433,
{
    assert(crate::msgf_fp::tdiv((4096 * 200) as int, 8192) == 100);
    assert(cnt_pitch_spec(100) == 69433);
}

/// Re-sending the same modulation value is idempotent: the state one
/// broadcast reaches is a fixed point of the next.
pub proof fn lemma_va_modulation_idempotent(p0: InstVa, p1: InstVa, p2: InstVa, value: u8)
    requires
        va_modulation_rel(p0, p1, value),
        va_modulation_rel(p1, p2, value),
    ensures
        p2.vcevec@ == p1.vcevec@,
        p2.mdlt == p1.mdlt,
        same_but_voices(p2, p1),
{
    assert forall|i: int| 0 <= i < p2.vcevec@.len() implies p2.vcevec@[i] == p1.vcevec@[i] by {
        assert(p1.vcevec@[i].osc.pmd == p1.mdlt);
    }
    assert(p2.vcevec@ =~= p1.vcevec@);
}

/// Re-sending the same channel volume is idempotent.
pub proof fn lemma_va_volume_idempotent(p0: InstVa, p1: InstVa, p2: InstVa, value: u8)
    requires
        va_volume_rel(p0, p1, value),
        va_volume_rel(p1, p2, value),
    ensures
        p2.vcevec@ == p1.vcevec@,
        same_but_voices(p2, p1),
{
    assert forall|i: int| 0 <= i < p2.vcevec@.len() implies p2.vcevec@[i] == p1.vcevec@[i] by {
        assert(p1.vcevec@[i].max_note_vol as int == calc_vol_spec(value as int, p0.exp as int));
        assert(p1.exp == p0.exp);
    }
    assert(p2.vcevec@ =~= p1.vcevec@);
}

/// Re-sending the same bend with the same tune controllers is
/// idempotent.
pub proof fn lemma_va_pitch_idempotent(p0: InstVa, p1: InstVa, p2: InstVa, bend: i16,
    tune_coarse: u8, tune_fine: u8)
    requires
        va_pitch_rel(p0, p1, bend, tune_coarse, tune_fine),
        va_pitch_rel(p1, p2, bend, tune_coarse, tune_fine),
    ensures
        p2.vcevec@ == p1.vcevec@,
        p2.pit == p1.pit,
        same_but_voices(p2, p1),
{
    assert forall|i: int| 0 <= i < p2.vcevec@.len() implies p2.vcevec@[i] == p1.vcevec@[i] by {
        assert(p1.vcevec@[i].osc.cnt_ratio == cnt_pitch_spec(p1.pit as int));
    }
    assert(p2.vcevec@ =~= p1.vcevec@);
}

/// Repeating all-sound-off is idempotent.
pub proof fn lemma_va_all_sound_off_idempotent(p0: InstVa, p1: InstVa, p2: InstVa)
    requires
        va_all_sound_off_rel(p0, p1),
        va_all_sound_off_rel(p1, p2),
    ensures
        p2.vcevec@ == p1.vcevec@,
        same_but_voices(p2, p1),
{
    assert forall|i: int| 0 <= i < p2.vcevec@.len() implies p2.vcevec@[i] == p1.vcevec@[i] by {
        assert(p1.vcevec@[i].status == NoteStatus::DuringDamp);
        assert(p1.vcevec@[i].damp_counter == 0);
    }
    assert(p2.vcevec@ =~= p1.vcevec@);
}

/// Re-sending the same per-voice parameter is idempotent.
pub proof fn lemma_va_set_prm_idempotent(p0: InstVa, p1: InstVa, p2: InstVa, prm_type: u8, value: u8)
    requires
        va_set_prm_rel(p0, p1, prm_type, value),
        va_set_prm_rel(p1, p2, prm_type, value),
    ensures
        p2.vcevec@ == p1.vcevec@,
        same_but_voices(p2, p1),
{
    assert forall|i: int| 0 <= i < p2.vcevec@.len() implies p2.vcevec@[i] == p1.vcevec@[i] by {
        crate::msgf_lfo::lemma_lfo_prm_idempotent(p0.vcevec@[i].lfo, prm_type, value);
        assert(p1.vcevec@[i].lfo
            == crate::msgf_lfo::lfo_after_prm_spec(p0.vcevec@[i].lfo, prm_type, value));
    }
    assert(p2.vcevec@ =~= p1.vcevec@);
}

/// Repeating a program change with the same arguments leaves the same
/// sounding state as one call: held voices stay untouched and every
/// control lands on the same value again.
pub proof fn lemma_va_change_inst_idempotent(p0: InstVa, p1: InstVa, p2: InstVa,
    inst_number: int, vol: u8, pan: u8, exp: u8)
    requires
        va_change_inst_rel(p0, p1, inst_number, vol, pan, exp),
        va_change_inst_rel(p1, p2, inst_number, vol, pan, exp),
    ensures
        p2.vcevec@ == p1.vcevec@,
        p2.inst_number == p1.inst_number,
        p2.prms == p1.prms,
        p2.mdlt == p1.mdlt,
        p2.pit == p1.pit,
        p2.vol == p1.vol,
        p2.pan == p1.pan,
        p2.exp == p1.exp,
{
}

/// A polyphonic instrument as the constructor leaves it for a (clamped)
/// tone index and the given controls.
pub open spec fn inst_va_fresh(i: InstVa, tone: int, vol: int, pan: int, exp: int) -> bool {
    &&& i.vcevec@.len() == 0
    &&& i.inst_number == tone
    &&& i.prms == tone_prm_spec(tone)
    &&& i.mdlt == i.prms.osc.lfo_depth
    &&& i.pit == 0
    &&& i.vol == vol
    &&& i.pan == pan_spec(pan)
    &&& i.exp == exp
    &&& delay_fresh(i.delay, i.prms.delay)
    &&& frame_fresh(i.vce_audio, MAX_BUFFER_SIZE as int)
    &&& frame_fresh(i.inst_audio, MAX_BUFFER_SIZE as int)
}


/// One relation per instrument operation, naming exactly what the
/// operation does; the methods ensure them and the channel dispatch
/// forwards them.
pub open spec fn va_modulation_rel(pre: InstVa, post: InstVa, value: u8) -> bool {
    &&& same_but_voices(post, (InstVa { mdlt: post.mdlt, ..pre }))
    &&& post.mdlt as int == mod_depth_spec(value as int)
    &&& post.vcevec@.len() == pre.vcevec@.len()
    &&& forall|i: int| 0 <= i < pre.vcevec@.len()
        ==> post.vcevec@[i] == (VoiceVa {
                osc: Osc { pmd: post.mdlt, ..pre.vcevec@[i].osc },
                ..pre.vcevec@[i]
            })
}

pub open spec fn va_volume_rel(pre: InstVa, post: InstVa, value: u8) -> bool {
    &&& same_but_voices(post, (InstVa { vol: value, ..pre }))
    &&& post.vol == value
    &&& post.vcevec@.len() == pre.vcevec@.len()
    &&& forall|i: int| 0 <= i < pre.vcevec@.len()
        ==> post.vcevec@[i] == (VoiceVa {
                max_note_vol: post.vcevec@[i].max_note_vol,
                ..pre.vcevec@[i]
            })
            && post.vcevec@[i].max_note_vol as int
                == calc_vol_spec(value as int, pre.exp as int)
}

pub open spec fn va_pan_rel(pre: InstVa, post: InstVa, value: u8) -> bool {
    &&& same_but_voices(post, (InstVa { pan: post.pan, ..pre }))
    &&& post.vcevec@ == pre.vcevec@
    &&& post.pan as int == pan_spec(value as int)
}

pub open spec fn va_expression_rel(pre: InstVa, post: InstVa, value: u8) -> bool {
    &&& same_but_voices(post, (InstVa { exp: value, ..pre }))
    &&& post.exp == value
    &&& post.vcevec@.len() == pre.vcevec@.len()
    &&& forall|i: int| 0 <= i < pre.vcevec@.len()
        ==> post.vcevec@[i] == (VoiceVa {
                max_note_vol: post.vcevec@[i].max_note_vol,
                ..pre.vcevec@[i]
            })
            && post.vcevec@[i].max_note_vol as int
                == calc_vol_spec(pre.vol as int, value as int)
}

pub open spec fn va_pitch_rel(pre: InstVa, post: InstVa, bend: i16, tune_coarse: u8, tune_fine: u8) -> bool {
    &&& same_but_voices(post, (InstVa { pit: post.pit, ..pre }))
    &&& post.pit as int == pitch_cents_spec(bend as int, tune_coarse as int, tune_fine as int)
    &&& post.vcevec@.len() == pre.vcevec@.len()
    &&& forall|i: int| 0 <= i < pre.vcevec@.len()
        ==> post.vcevec@[i] == (VoiceVa {
                osc: Osc { cnt_ratio: post.vcevec@[i].osc.cnt_ratio, ..pre.vcevec@[i].osc },
                ..pre.vcevec@[i]
            })
            && post.vcevec@[i].osc.cnt_ratio == cnt_pitch_spec(post.pit as int)
}

pub open spec fn va_all_sound_off_rel(pre: InstVa, post: InstVa) -> bool {
    &&& same_but_voices(post, pre)
    &&& post.vcevec@.len() == pre.vcevec@.len()
    &&& forall|i: int| 0 <= i < pre.vcevec@.len()
        ==> post.vcevec@[i] == (VoiceVa {
                status: NoteStatus::DuringDamp,
                damp_counter: 0,
                ..pre.vcevec@[i]
            })
}

pub open spec fn va_set_prm_rel(pre: InstVa, post: InstVa, prm_type: u8, value: u8) -> bool {
    &&& same_but_voices(post, pre)
    &&& post.vcevec@.len() == pre.vcevec@.len()
    &&& forall|i: int| 0 <= i < pre.vcevec@.len()
        ==> post.vcevec@[i] == (VoiceVa {
                lfo: crate::msgf_lfo::lfo_after_prm_spec(pre.vcevec@[i].lfo, prm_type, value),
                ..pre.vcevec@[i]
            })
}

pub open spec fn va_note_on_rel(pre: InstVa, post: InstVa, dt2: u8, dt3: u8) -> bool {
    &&& same_but_voices(post, pre)
    &&& post.vcevec@.len() == pre.vcevec@.len() + 1
    &&& forall|i: int| 0 <= i < pre.vcevec@.len() ==> post.vcevec@[i] == pre.vcevec@[i]
    &&& ({
        let v = post.vcevec@[pre.vcevec@.len() as int];
        &&& v.note == dt2
        &&& v.vel == dt3
        &&& v.status == NoteStatus::DuringNoteOn
        &&& v.damp_counter == 0
        &&& v.ended == false
        &&& v.max_note_vol as int == calc_vol_spec(pre.vol as int, pre.exp as int)
        &&& v.osc.pmd == pre.mdlt
        &&& v.osc.cnt_ratio == cnt_pitch_spec(pre.pit as int)
        &&& v.aeg.state == crate::msgf_aeg::EgState::Attack
    })
}

pub open spec fn va_note_off_rel(pre: InstVa, post: InstVa, dt2: u8) -> bool {
    &&& same_but_voices(post, pre)
    &&& post.vcevec@.len() == pre.vcevec@.len()
    &&& ({
        let idx = find_note_spec(pre.vcevec@, dt2, 0);
        if idx < pre.vcevec@.len() {
            &&& post.vcevec@[idx].status == NoteStatus::AfterNoteOff
            &&& post.vcevec@[idx].aeg
                == (crate::msgf_aeg::move_to_release_spec(pre.vcevec@[idx].aeg))
            &&& post.vcevec@[idx] == (VoiceVa {
                    status: NoteStatus::AfterNoteOff,
                    aeg: post.vcevec@[idx].aeg,
                    ..pre.vcevec@[idx]
                })
            &&& forall|i: int| 0 <= i < pre.vcevec@.len() && i != idx
                ==> post.vcevec@[i] == pre.vcevec@[i]
        } else {
            post.vcevec@ == pre.vcevec@
        }
    })
}

pub open spec fn va_change_inst_rel(pre: InstVa, post: InstVa, inst_number: int, vol: u8, pan: u8, exp: u8) -> bool {
    &&& post.vcevec@ == pre.vcevec@
    &&& post.inst_number == (if inst_number >= MAX_TONE_COUNT as int { MAX_TONE_COUNT - 1 } else { inst_number })
    &&& post.prms == tone_prm_spec(post.inst_number as int)
    &&& post.mdlt == post.prms.osc.lfo_depth
    &&& post.pit == 0
    &&& post.vol == vol
    &&& post.pan as int == pan_spec(pan as int)
    &&& post.exp == exp
    &&& delay_fresh(post.delay, post.prms.delay)
    &&& post.vce_audio == pre.vce_audio
    &&& post.inst_audio == pre.inst_audio
}

/// What one rendered block does to the polyphonic instrument's control
/// state: the cached controls stay, every voice takes its block step,
/// and the first ended voice (if any) is removed.
pub open spec fn va_processed_rel(pre: InstVa, post: InstVa, n: int) -> bool {
    &&& post.prms == pre.prms
    &&& post.inst_number == pre.inst_number
    &&& post.mdlt == pre.mdlt
    &&& post.pit == pre.pit
    &&& post.vol == pre.vol
    &&& post.pan == pre.pan
    &&& post.exp == pre.exp
    &&& exists|mid: Seq<VoiceVa>|
        #![trigger find_ended_spec(mid, 0)]
    {
        &&& mid.len() == pre.vcevec@.len()
        &&& (forall|i: int| 0 <= i < mid.len()
            ==> voice_processed_rel(pre.vcevec@[i], #[trigger] mid[i], n))
        &&& ({
            let e = find_ended_spec(mid, 0);
            if e < mid.len() {
                post.vcevec@ == mid.remove(e)
            } else {
                post.vcevec@ == mid
            }
        })
    }
}

pub struct InstVa {
    pub vce_audio: AudioFrame,
    pub inst_audio: AudioFrame,
    pub vcevec: Vec<VoiceVa>,
    pub delay: Delay,
    pub inst_number: usize,
    pub prms: SynthParameter,
    pub mdlt: i32,  //  Q15, 0..0.5
    pub pit: i32,   //  [cent]
    pub vol: u8,    //  0..127
    pub pan: i32,   //  Q15, 0 left .. 32768 right
    pub exp: u8,    //  0..127
}

impl InstVa {
    pub open spec fn wf(self) -> bool {
        &&& self.vce_audio.wf()
        &&& self.vce_audio.capacity() == MAX_BUFFER_SIZE
        &&& self.inst_audio.wf()
        &&& self.inst_audio.capacity() == MAX_BUFFER_SIZE
        &&& forall|i: int| 0 <= i < self.vcevec@.len() ==> (#[trigger] self.vcevec@[i]).wf()
        &&& self.delay.wf()
        &&& synth_prm_wf(self.prms)
        &&& 0 <= self.mdlt <= 32768
        &&& -CENTS_LIMIT <= self.pit <= CENTS_LIMIT
        &&& 0 <= self.pan <= 32768
    }

    pub fn new(inst_number: usize, vol: u8, pan: u8, exp: u8) -> (r: InstVa)
        ensures
            r.wf(),
            inst_va_fresh(r, if inst_number >= MAX_TONE_COUNT { MAX_TONE_COUNT - 1 } else { inst_number as int },
                vol as int, pan as int, exp as int),
    {
        let num = if inst_number >= MAX_TONE_COUNT { MAX_TONE_COUNT - 1 } else { inst_number };
        let prms = tone_prm(num);
        InstVa {
            vce_audio: AudioFrame::new(0, MAX_BUFFER_SIZE),
            inst_audio: AudioFrame::new(0, MAX_BUFFER_SIZE),
            vcevec: Vec::new(),
            delay: Delay::new(prms.delay),
            inst_number: num,
            prms,
            mdlt: prms.osc.lfo_depth,
            pit: 0,
            vol,
            pan: InstVa::calc_pan(pan),
            exp,
        }
    }

    /// Executable form of pan_spec.
    pub fn calc_pan(value: u8) -> (r: i32)
        ensures
            r as int == pan_spec(value as int),
            0 <= r <= 32768,
    {
        if value >= 127 {
            32768
        } else {
            (value as i32) * 256
        }
    }

    /// Switch to another preset: fresh parameters and delay, cleared
    /// pitch offset, new volume, pan and expression; held voices keep
    /// sounding with their own snapshots.
    pub fn change_inst(&mut self, inst_number: usize, vol: u8, pan: u8, exp: u8)
        requires
            old(self).wf(),
        ensures
            final(self).wf(),
            va_change_inst_rel(*old(self), *final(self), inst_number as int, vol, pan, exp),
            final(self).vcevec@ == old(self).vcevec@,
            final(self).inst_number == (if inst_number >= MAX_TONE_COUNT { MAX_TONE_COUNT - 1 } else { inst_number as int }),
            final(self).prms == tone_prm_spec(final(self).inst_number as int),
            final(self).mdlt == final(self).prms.osc.lfo_depth,
            final(self).pit == 0,
            final(self).vol == vol,
            final(self).pan as int == pan_spec(pan as int),
            final(self).exp == exp,
            delay_fresh(final(self).delay, final(self).prms.delay),
            final(self).vce_audio == old(self).vce_audio,
            final(self).inst_audio == old(self).inst_audio,
    {
        let num = if inst_number >= MAX_TONE_COUNT { MAX_TONE_COUNT - 1 } else { inst_number };
        let prms = tone_prm(num);
        self.prms = prms;
        self.delay = Delay::new(prms.delay);
        self.inst_number = num;
        self.mdlt = prms.osc.lfo_depth;
        self.pit = 0;
        self.vol = vol;
        self.pan = InstVa::calc_pan(pan);
        self.exp = exp;
    }

    /// Release the first sounding voice holding the note, if any.
    pub fn note_off(&mut self, dt2: u8, _dt3: u8)
        requires
            old(self).wf(),
        ensures
            final(self).wf(),
            va_note_off_rel(*old(self), *final(self), dt2),
            same_but_voices(*final(self), *old(self)),
            final(self).vcevec@.len() == old(self).vcevec@.len(),
            ({
                let idx = find_note_spec(old(self).vcevec@, dt2, 0);
                if idx < old(self).vcevec@.len() {
                    &&& final(self).vcevec@[idx].status == NoteStatus::AfterNoteOff
                    &&& final(self).vcevec@[idx].aeg
                        == (crate::msgf_aeg::move_to_release_spec(old(self).vcevec@[idx].aeg))
                    &&& final(self).vcevec@[idx] == (VoiceVa {
                            status: NoteStatus::AfterNoteOff,
                            aeg: final(self).vcevec@[idx].aeg,
                            ..old(self).vcevec@[idx]
                        })
                    &&& forall|i: int| 0 <= i < old(self).vcevec@.len() && i != idx
                        ==> final(self).vcevec@[i] == old(self).vcevec@[i]
                } else {
                    final(self).vcevec@ == old(self).vcevec@
                }
            }),
    {
        let ghost s0: Seq<VoiceVa> = self.vcevec@;
        let max_note = self.vcevec.len();
        let mut i: usize = 0;
        while i < max_note
            invariant
                old(self).wf(),
                i <= max_note,
                max_note == self.vcevec@.len(),
                self.vcevec@ == s0,
                s0 == old(self).vcevec@,
                same_but_voices(*self, *old(self)),
                find_note_spec(s0, dt2, 0) == find_note_spec(s0, dt2, i as int),
                forall|k: int| 0 <= k < self.vcevec@.len() ==> (#[trigger] self.vcevec@[k]).wf(),
            decreases max_note - i,
        {
            let hit = self.vcevec[i].note_num() == dt2
                && matches!(self.vcevec[i].status(), NoteStatus::DuringNoteOn);
            if hit {
                proof {
                    assert(find_note_spec(s0, dt2, i as int) == i as int);
                }
                self.vcevec[i].note_off();
                proof {
                    assert(self.vcevec@.len() == s0.len());
                    assert(self.vce_audio == old(self).vce_audio);
                    assert(self.delay == old(self).delay);
                    assert(forall|k: int| 0 <= k < self.vcevec@.len()
                        ==> (#[trigger] self.vcevec@[k]).wf());
                    assert(self.vcevec@[i as int].status == NoteStatus::AfterNoteOff);
                }
                return;
            }
            proof {
                assert(find_note_spec(s0, dt2, i as int) == find_note_spec(s0, dt2, i as int + 1));
            }
            i += 1;
        }
        proof {
            assert(find_note_spec(s0, dt2, 0) == s0.len() as int);
        }
    }

    /// Allocate a fresh voice for the note and start it.
    pub fn note_on(&mut self, dt2: u8, dt3: u8)
        requires
            old(self).wf(),
        ensures
            final(self).wf(),
            va_note_on_rel(*old(self), *final(self), dt2, dt3),
            same_but_voices(*final(self), *old(self)),
            final(self).vcevec@.len() == old(self).vcevec@.len() + 1,
            forall|i: int| 0 <= i < old(self).vcevec@.len()
                ==> final(self).vcevec@[i] == old(self).vcevec@[i],
            ({
                let v = final(self).vcevec@[old(self).vcevec@.len() as int];
                &&& v.note == dt2
                &&& v.vel == dt3
                &&& v.status == NoteStatus::DuringNoteOn
                &&& v.damp_counter == 0
                &&& v.ended == false
                &&& v.max_note_vol as int == calc_vol_spec(old(self).vol as int, old(self).exp as int)
                &&& v.osc.pmd == old(self).mdlt
                &&& v.osc.cnt_ratio == cnt_pitch_spec(old(self).pit as int)
                &&& v.aeg.state == crate::msgf_aeg::EgState::Attack
            }),
    {
        let mut new_voice = VoiceVa::new(dt2, dt3, self.mdlt, self.pit, self.vol, self.exp, &self.prms);
        new_voice.start_sound();
        self.vcevec.push(new_voice);
    }

    /// Broadcast a new modulation depth to every held voice.
    pub fn modulation(&mut self, value: u8)
        requires
            old(self).wf(),
        ensures
            final(self).wf(),
            va_modulation_rel(*old(self), *final(self), value),
            same_but_voices(*final(self), (InstVa { mdlt: final(self).mdlt, ..*old(self) })),
            final(self).mdlt as int == mod_depth_spec(value as int),
            final(self).vcevec@.len() == old(self).vcevec@.len(),
            forall|i: int| 0 <= i < old(self).vcevec@.len()
                ==> final(self).vcevec@[i] == (VoiceVa {
                        osc: Osc { pmd: final(self).mdlt, ..old(self).vcevec@[i].osc },
                        ..old(self).vcevec@[i]
                    }),
    {
        let m0: i32 = ((value as i32) * 16384) / 127;
        let mdlt: i32 = if m0 > 32768 { 32768 } else { m0 };
        self.mdlt = mdlt;
        let ghost s0: Seq<VoiceVa> = self.vcevec@;
        let len = self.vcevec.len();
        let mut i: usize = 0;
        while i < len
            invariant
                old(self).wf(),
                i <= len,
                len == self.vcevec@.len(),
                s0.len() == len,
                0 <= mdlt <= 32768,
                mdlt == self.mdlt,
                s0 == old(self).vcevec@,
                same_but_voices(*self, InstVa { mdlt: mdlt, ..*old(self) }),
                forall|k: int| 0 <= k < len ==> (#[trigger] self.vcevec@[k]).wf(),
                forall|k: int| i <= k < len ==> self.vcevec@[k] == s0[k],
                forall|k: int| 0 <= k < i
                    ==> self.vcevec@[k] == (VoiceVa {
                            osc: Osc { pmd: mdlt, ..s0[k].osc },
                            ..s0[k]
                        }),
            decreases len - i,
        {
            self.vcevec[i].change_pmd(mdlt);
            i += 1;
        }
    }

    /// Broadcast a new channel volume to every held voice.
    pub fn volume(&mut self, value: u8)
        requires
            old(self).wf(),
        ensures
            final(self).wf(),
            va_volume_rel(*old(self), *final(self), value),
            same_but_voices(*final(self), (InstVa { vol: value, ..*old(self) })),
            final(self).vol == value,
            final(self).vcevec@.len() == old(self).vcevec@.len(),
            forall|i: int| 0 <= i < old(self).vcevec@.len()
                ==> final(self).vcevec@[i] == (VoiceVa {
                        max_note_vol: final(self).vcevec@[i].max_note_vol,
                        ..old(self).vcevec@[i]
                    })
                    && final(self).vcevec@[i].max_note_vol as int
                        == calc_vol_spec(value as int, old(self).exp as int),
    {
        self.vol = value;
        let exp = self.exp;
        let ghost s0: Seq<VoiceVa> = self.vcevec@;
        let len = self.vcevec.len();
        let mut i: usize = 0;
        while i < len
            invariant
                old(self).wf(),
                i <= len,
                len == self.vcevec@.len(),
                s0.len() == len,
                exp == old(self).exp,
                s0 == old(self).vcevec@,
                same_but_voices(*self, InstVa { vol: value, ..*old(self) }),
                self.vol == value,
                forall|k: int| 0 <= k < len ==> (#[trigger] self.vcevec@[k]).wf(),
                forall|k: int| i <= k < len ==> self.vcevec@[k] == s0[k],
                forall|k: int| 0 <= k < i
                    ==> self.vcevec@[k] == (VoiceVa {
                            max_note_vol: self.vcevec@[k].max_note_vol,
                            ..s0[k]
                        })
                        && self.vcevec@[k].max_note_vol as int
                            == calc_vol_spec(value as int, exp as int),
            decreases len - i,
        {
            self.vcevec[i].amplitude(value, exp);
            i += 1;
        }
    }

    /// Reposition the instrument in the stereo field.
    pub fn pan(&mut self, value: u8)
        requires
            old(self).wf(),
        ensures
            final(self).wf(),
            va_pan_rel(*old(self), *final(self), value),
            same_but_voices(*final(self), (InstVa { pan: final(self).pan, ..*old(self) })),
            final(self).vcevec@ == old(self).vcevec@,
            final(self).pan as int == pan_spec(value as int),
    {
        self.pan = InstVa::calc_pan(value);
    }

    /// Broadcast a new expression level to every held voice.
    pub fn expression(&mut self, value: u8)
        requires
            old(self).wf(),
        ensures
            final(self).wf(),
            va_expression_rel(*old(self), *final(self), value),
            same_but_voices(*final(self), (InstVa { exp: value, ..*old(self) })),
            final(self).exp == value,
            final(self).vcevec@.len() == old(self).vcevec@.len(),
            forall|i: int| 0 <= i < old(self).vcevec@.len()
                ==> final(self).vcevec@[i] == (VoiceVa {
                        max_note_vol: final(self).vcevec@[i].max_note_vol,
                        ..old(self).vcevec@[i]
                    })
                    && final(self).vcevec@[i].max_note_vol as int
                        == calc_vol_spec(old(self).vol as int, value as int),
    {
        self.exp = value;
        let vol = self.vol;
        let ghost s0: Seq<VoiceVa> = self.vcevec@;
        let len = self.vcevec.len();
        let mut i: usize = 0;
        while i < len
            invariant
                old(self).wf(),
                i <= len,
                len == self.vcevec@.len(),
                s0.len() == len,
                vol == old(self).vol,
                s0 == old(self).vcevec@,
                same_but_voices(*self, InstVa { exp: value, ..*old(self) }),
                self.exp == value,
                forall|k: int| 0 <= k < len ==> (#[trigger] self.vcevec@[k]).wf(),
                forall|k: int| i <= k < len ==> self.vcevec@[k] == s0[k],
                forall|k: int| 0 <= k < i
                    ==> self.vcevec@[k] == (VoiceVa {
                            max_note_vol: self.vcevec@[k].max_note_vol,
                            ..s0[k]
                        })
                        && self.vcevec@[k].max_note_vol as int
                            == calc_vol_spec(vol as int, value as int),
            decreases len - i,
        {
            self.vcevec[i].amplitude(vol, value);
            i += 1;
        }
    }

    /// Apply a bend with the note-shift and tune controllers: every held
    /// voice's bend ratio becomes the cent ratio of the offset.
    pub fn pitch(&mut self, bend: i16, tune_coarse: u8, tune_fine: u8)
        requires
            old(self).wf(),
            -8192 <= bend <= 8191,
            tune_coarse < 128,
            tune_fine < 128,
        ensures
            final(self).wf(),
            va_pitch_rel(*old(self), *final(self), bend, tune_coarse, tune_fine),
            same_but_voices(*final(self), (InstVa { pit: final(self).pit, ..*old(self) })),
            final(self).pit as int
                == pitch_cents_spec(bend as int, tune_coarse as int, tune_fine as int),
            final(self).vcevec@.len() == old(self).vcevec@.len(),
            forall|i: int| 0 <= i < old(self).vcevec@.len()
                ==> final(self).vcevec@[i] == (VoiceVa {
                        osc: Osc {
                            cnt_ratio: final(self).vcevec@[i].osc.cnt_ratio,
                            ..old(self).vcevec@[i].osc
                        },
                        ..old(self).vcevec@[i]
                    })
                    && final(self).vcevec@[i].osc.cnt_ratio
                        == cnt_pitch_spec(final(self).pit as int),
    {
        let b = crate::msgf_fp::tdiv64(bend as i64 * 200, 8192) as i32;
        let tf = crate::msgf_fp::tdiv64((tune_fine as i64 - 64) * 100, 64) as i32;
        let pit: i32 = b + (tune_coarse as i32 - 64) * 100 + tf;
        proof {
            crate::msgf_fp::lemma_tdiv_bound(bend as int * 200, 8192, (8192 * 200) as int);
            crate::msgf_fp::lemma_tdiv_bound((tune_fine as int - 64) * 100, 64, (64 * 100) as int);
        }
        self.pit = pit;
        let ghost s0: Seq<VoiceVa> = self.vcevec@;
        let len = self.vcevec.len();
        let mut i: usize = 0;
        while i < len
            invariant
                old(self).wf(),
                i <= len,
                len == self.vcevec@.len(),
                s0.len() == len,
                -CENTS_LIMIT <= pit <= CENTS_LIMIT,
                pit == self.pit,
                s0 == old(self).vcevec@,
                same_but_voices(*self, InstVa { pit: pit, ..*old(self) }),
                forall|k: int| 0 <= k < len ==> (#[trigger] self.vcevec@[k]).wf(),
                forall|k: int| i <= k < len ==> self.vcevec@[k] == s0[k],
                forall|k: int| 0 <= k < i
                    ==> self.vcevec@[k] == (VoiceVa {
                            osc: Osc { cnt_ratio: self.vcevec@[k].osc.cnt_ratio, ..s0[k].osc },
                            ..s0[k]
                        })
                        && self.vcevec@[k].osc.cnt_ratio == cnt_pitch_spec(pit as int),
            decreases len - i,
        {
            self.vcevec[i].pitch(pit);
            i += 1;
        }
    }

    /// The sustain pedal is not interpreted by this instrument.
    pub fn sustain(&mut self, _value: u8)
        requires
            old(self).wf(),
        ensures
            *final(self) == *old(self),
    {
    }

    /// Damp every held voice at once.
    pub fn all_sound_off(&mut self)
        requires
            old(self).wf(),
        ensures
            final(self).wf(),
            va_all_sound_off_rel(*old(self), *final(self)),
            same_but_voices(*final(self), *old(self)),
            final(self).vcevec@.len() == old(self).vcevec@.len(),
            forall|i: int| 0 <= i < old(self).vcevec@.len()
                ==> final(self).vcevec@[i] == (VoiceVa {
                        status: NoteStatus::DuringDamp,
                        damp_counter: 0,
                        ..old(self).vcevec@[i]
                    }),
    {
        let ghost s0: Seq<VoiceVa> = self.vcevec@;
        let len = self.vcevec.len();
        let mut i: usize = 0;
        while i < len
            invariant
                old(self).wf(),
                i <= len,
                len == self.vcevec@.len(),
                s0.len() == len,
                s0 == old(self).vcevec@,
                same_but_voices(*self, *old(self)),
                forall|k: int| 0 <= k < len ==> (#[trigger] self.vcevec@[k]).wf(),
                forall|k: int| i <= k < len ==> self.vcevec@[k] == s0[k],
                forall|k: int| 0 <= k < i
                    ==> self.vcevec@[k] == (VoiceVa {
                            status: NoteStatus::DuringDamp,
                            damp_counter: 0,
                            ..s0[k]
                        }),
            decreases len - i,
        {
            self.vcevec[i].damp();
            i += 1;
        }
    }

    /// Broadcast a per-voice parameter to every held voice.
    pub fn set_prm(&mut self, prm_type: u8, value: u8)
        requires
            old(self).wf(),
        ensures
            final(self).wf(),
            va_set_prm_rel(*old(self), *final(self), prm_type, value),
            same_but_voices(*final(self), *old(self)),
            final(self).vcevec@.len() == old(self).vcevec@.len(),
            forall|i: int| 0 <= i < old(self).vcevec@.len()
                ==> final(self).vcevec@[i] == (VoiceVa {
                        lfo: crate::msgf_lfo::lfo_after_prm_spec(
                            old(self).vcevec@[i].lfo, prm_type, value),
                        ..old(self).vcevec@[i]
                    }),
    {
        let ghost s0: Seq<VoiceVa> = self.vcevec@;
        let len = self.vcevec.len();
        let mut i: usize = 0;
        while i < len
            invariant
                old(self).wf(),
                i <= len,
                len == self.vcevec@.len(),
                s0.len() == len,
                s0 == old(self).vcevec@,
                same_but_voices(*self, *old(self)),
                forall|k: int| 0 <= k < len ==> (#[trigger] self.vcevec@[k]).wf(),
                forall|k: int| i <= k < len ==> self.vcevec@[k] == s0[k],
                forall|k: int| 0 <= k < i
                    ==> self.vcevec@[k] == (VoiceVa {
                            lfo: crate::msgf_lfo::lfo_after_prm_spec(s0[k].lfo, prm_type, value),
                            ..s0[k]
                        }),
            decreases len - i,
        {
            self.vcevec[i].set_prm(prm_type, value);
            i += 1;
        }
    }

    /// How many voices the pool holds.
    pub fn voice_count(&self) -> (r: usize)
        ensures
            r == self.vcevec@.len(),
    {
        self.vcevec.len()
    }

    /// Render one block: every voice renders and accumulates into the
    /// instrument bus, the bus is panned into the stereo pair, the
    /// per-voice delay runs, and at most one ended voice is removed.
    pub fn process(&mut self, abuf_l: &mut AudioFrame, abuf_r: &mut AudioFrame,
        in_number_frames: usize)
        requires
            old(self).wf(),
            old(abuf_l).wf(),
            old(abuf_r).wf(),
            old(abuf_l).sample_number == in_number_frames,
            old(abuf_r).sample_number == in_number_frames,
            (in_number_frames as int) % (AUDIO_FRAME_PER_CONTROL as int) == 0,
            in_number_frames <= MAX_BUFFER_SIZE,
        ensures
            final(self).wf(),
            final(abuf_l).wf(),
            final(abuf_r).wf(),
            final(abuf_l).capacity() == old(abuf_l).capacity(),
            final(abuf_r).capacity() == old(abuf_r).capacity(),
            final(abuf_l).sample_number == old(abuf_l).sample_number,
            final(abuf_r).sample_number == old(abuf_r).sample_number,
            va_processed_rel(*old(self), *final(self), in_number_frames as int),
    {
        let sz = self.vcevec.len();
        self.vce_audio.set_sample_number(in_number_frames);
        self.inst_audio.set_sample_number(in_number_frames);
        self.inst_audio.clr_abuf();
        let ghost s0: Seq<VoiceVa> = self.vcevec@;
        let mut i: usize = 0;
        while i < sz
            invariant
                old(self).wf(),
                i <= sz,
                sz == self.vcevec@.len(),
                s0.len() == sz,
                self.vce_audio.wf(),
                self.vce_audio.capacity() == MAX_BUFFER_SIZE,
                self.vce_audio.sample_number == in_number_frames,
                self.inst_audio.wf(),
                self.inst_audio.capacity() == MAX_BUFFER_SIZE,
                self.inst_audio.sample_number == in_number_frames,
                (in_number_frames as int) % (AUDIO_FRAME_PER_CONTROL as int) == 0,
                in_number_frames <= MAX_BUFFER_SIZE,
                s0 == old(self).vcevec@,
                self.delay == old(self).delay,
                self.delay.wf(),
                self.inst_number == old(self).inst_number,
                self.prms == old(self).prms,
                self.mdlt == old(self).mdlt,
                self.pit == old(self).pit,
                self.vol == old(self).vol,
                self.pan == old(self).pan,
                self.exp == old(self).exp,
                synth_prm_wf(self.prms),
                0 <= self.mdlt <= 32768,
                -CENTS_LIMIT <= self.pit <= CENTS_LIMIT,
                0 <= self.pan <= 32768,
                forall|k: int| 0 <= k < sz ==> (#[trigger] self.vcevec@[k]).wf(),
                forall|k: int| i <= k < sz ==> self.vcevec@[k] == s0[k],
                forall|k: int| 0 <= k < i
                    ==> voice_processed_rel(s0[k], #[trigger] self.vcevec@[k],
                        in_number_frames as int),
            decreases sz - i,
        {
            let _ended = self.vcevec[i].process(&mut self.vce_audio, in_number_frames);
            self.inst_audio.mul_and_mix(&self.vce_audio, 32768);
            i += 1;
        }
        let pan = self.pan;
        abuf_l.mul_and_mix(&self.inst_audio, 32768 - pan);
        abuf_r.mul_and_mix(&self.inst_audio, pan);
        self.delay.process(abuf_l, abuf_r);
        let ghost mid: Seq<VoiceVa> = self.vcevec@;
        // remove at most one ended voice
        let len = self.vcevec.len();
        let mut j: usize = 0;
        while j < len
            invariant
                old(self).wf(),
                old(abuf_l).wf(),
                old(abuf_r).wf(),
                abuf_l.wf(),
                abuf_r.wf(),
                abuf_l.capacity() == old(abuf_l).capacity(),
                abuf_r.capacity() == old(abuf_r).capacity(),
                abuf_l.sample_number == old(abuf_l).sample_number,
                abuf_r.sample_number == old(abuf_r).sample_number,
                j <= len,
                len == self.vcevec@.len(),
                mid.len() == len,
                self.vcevec@ == mid,
                self.delay.wf(),
                self.vce_audio.wf(),
                self.vce_audio.capacity() == MAX_BUFFER_SIZE,
                self.inst_audio.wf(),
                self.inst_audio.capacity() == MAX_BUFFER_SIZE,
                self.inst_number == old(self).inst_number,
                self.prms == old(self).prms,
                self.mdlt == old(self).mdlt,
                self.pit == old(self).pit,
                self.vol == old(self).vol,
                self.pan == old(self).pan,
                self.exp == old(self).exp,
                synth_prm_wf(self.prms),
                0 <= self.mdlt <= 32768,
                -CENTS_LIMIT <= self.pit <= CENTS_LIMIT,
                0 <= self.pan <= 32768,
                s0.len() == len,
                s0 == old(self).vcevec@,
                forall|k: int| 0 <= k < mid.len()
                    ==> voice_processed_rel(s0[k], #[trigger] mid[k], in_number_frames as int),
                find_ended_spec(mid, 0) == find_ended_spec(mid, j as int),
                forall|k: int| 0 <= k < len ==> (#[trigger] self.vcevec@[k]).wf(),
            decreases len - j,
        {
            let e = self.vcevec[j].ended;
            if e {
                proof {
                    assert(find_ended_spec(mid, j as int) == j as int);
                }

                self.vcevec.remove(j);
                proof {
                    assert(self.vcevec@ =~= mid.remove(j as int));
                    assert(forall|k: int| 0 <= k < mid.len()
                        ==> voice_processed_rel(s0[k], #[trigger] mid[k], in_number_frames as int));
                    assert(find_ended_spec(mid, 0) < mid.len());
                }
                return;
            }
            proof {
                assert(find_ended_spec(mid, j as int) == find_ended_spec(mid, j as int + 1));
            }
            j += 1;
        }
        proof {
            assert(find_ended_spec(mid, 0) == mid.len() as int);
            assert(forall|k: int| 0 <= k < mid.len()
                ==> voice_processed_rel(s0[k], #[trigger] mid[k], in_number_frames as int));
        }
    }
}

} // verus!
