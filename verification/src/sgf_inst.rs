//
//  sgf_inst.rs
//  Musical Sound Generator Framework
//      Sing Instrument Class
//
//  The monophonic policy: at most one sounding voice, plus a stack of
//  the keys still held.  A new note slides the sounding voice; releasing
//  a non-sounding key just drops it from the stack; when the voice
//  finishes its fade, its stack entry is dropped too.
//
use vstd::prelude::*;

use crate::{AUDIO_FRAME_PER_CONTROL, MAX_BUFFER_SIZE};
use crate::msgf_afrm::AudioFrame;
use crate::msgf_osc::CENTS_LIMIT;
use crate::msgf_voice::NoteStatus;
use crate::sgf_prm::{SynthParameter, sgf_prm_wf, sgf_tone_prm, sgf_tone_prm_spec, SGF_MAX_TONE_COUNT};
use crate::msgf_afrm::frame_fresh;
use crate::sgf_voice::{VoiceSgf, NOTE_OFFSET, sgf_voice_processed_rel, sgf_voice_would_end};
use crate::va_inst::{pan_spec, mod_depth_spec, pitch_cents_spec};

verus! {

/// One held key.
#[derive(PartialEq, Eq, Structural, Clone, Copy)]
pub struct NoteSgf {
    pub note: u8,
    pub vel: u8,
    pub off: bool,
}

/// The first stack index holding the note, or the length.
pub open spec fn find_key_spec(s: Seq<NoteSgf>, note: u8, i: int) -> int
    decreases s.len() - i,
{
    if i < 0 || i >= s.len() {
        s.len() as int
    } else if s[i].note == note {
        i
    } else {
        find_key_spec(s, note, i + 1)
    }
}

/// The search start bounds its result.
pub proof fn lemma_find_key_range(s: Seq<NoteSgf>, note: u8, i: int)
    requires
        0 <= i <= s.len(),
    ensures
        i <= find_key_spec(s, note, i) <= s.len(),
    decreases s.len() - i,
{
    if i < s.len() && s[i].note != note {
        lemma_find_key_range(s, note, i + 1);
    }
}

/// A singing instrument as the constructor leaves it for the given
/// controls.
pub open spec fn inst_sgf_fresh(i: InstSgf, vol: int, pan: int, exp: int) -> bool {
    &&& i.vcevec@.len() == 0
    &&& i.vce is None
    &&& i.active_vce_index == -1
    &&& i.inst_number == 0
    &&& i.prms == sgf_tone_prm_spec()
    &&& i.mdlt == 0
    &&& i.pit == 0
    &&& i.vol == vol
    &&& i.pan == pan_spec(pan)
    &&& i.exp == exp
    &&& i.spmsg@ == seq![0u8, 0u8, 0u8, 0u8]
    &&& frame_fresh(i.vce_audio, MAX_BUFFER_SIZE as int)
    &&& frame_fresh(i.inst_audio, MAX_BUFFER_SIZE as int)
}


/// Everything of the instrument but the key stack, the voice and the
/// active index.
pub open spec fn sgf_same_controls(a: InstSgf, b: InstSgf) -> bool {
    &&& a.vce_audio == b.vce_audio
    &&& a.inst_audio == b.inst_audio
    &&& a.inst_number == b.inst_number
    &&& a.prms == b.prms
    &&& a.mdlt == b.mdlt
    &&& a.pit == b.pit
    &&& a.vol == b.vol
    &&& a.pan == b.pan
    &&& a.exp == b.exp
    &&& a.spmsg == b.spmsg
}

/// One relation per instrument operation, mirrored from the methods'
/// contracts for the channel dispatch to forward.
pub open spec fn sgf_modulation_rel(pre: InstSgf, post: InstSgf, value: u8) -> bool {
    &&& sgf_same_controls(post, (InstSgf { mdlt: post.mdlt, ..pre }))
    &&& post.mdlt as int == mod_depth_spec(value as int)
    &&& post.vcevec@ == pre.vcevec@
    &&& post.active_vce_index == pre.active_vce_index
    &&& (pre.vce is Some ==> post.vce is Some
        && post.vce->0 == (VoiceSgf {
            vcl: crate::msgf_vocal::Vocal { pmd: post.mdlt, ..pre.vce->0.vcl },
            ..pre.vce->0
        }))
    &&& (pre.vce is None ==> post.vce is None)
}

pub open spec fn sgf_volume_rel(pre: InstSgf, post: InstSgf, value: u8) -> bool {
    &&& sgf_same_controls(post, (InstSgf { vol: value, ..pre }))
    &&& post.vol == value
    &&& post.vcevec@ == pre.vcevec@
    &&& post.active_vce_index == pre.active_vce_index
    &&& (pre.vce is Some ==> post.vce is Some
        && post.vce->0 == (VoiceSgf {
            max_note_vol: post.vce->0.max_note_vol,
            ..pre.vce->0
        })
        && post.vce->0.max_note_vol as int
            == crate::sgf_voice::sgf_vol_spec(value as int, pre.exp as int))
    &&& (pre.vce is None ==> post.vce is None)
}

pub open spec fn sgf_pan_rel(pre: InstSgf, post: InstSgf, value: u8) -> bool {
    &&& sgf_same_controls(post, (InstSgf { pan: post.pan, ..pre }))
    &&& post.pan as int == pan_spec(value as int)
    &&& post.vcevec@ == pre.vcevec@
    &&& post.vce == pre.vce
    &&& post.active_vce_index == pre.active_vce_index
}

pub open spec fn sgf_expression_rel(pre: InstSgf, post: InstSgf, value: u8) -> bool {
    &&& sgf_same_controls(post, (InstSgf { exp: value, ..pre }))
    &&& post.exp == value
    &&& post.vcevec@ == pre.vcevec@
    &&& post.active_vce_index == pre.active_vce_index
    &&& (pre.vce is Some ==> post.vce is Some
        && post.vce->0 == (VoiceSgf {
            max_note_vol: post.vce->0.max_note_vol,
            ..pre.vce->0
        })
        && post.vce->0.max_note_vol as int
            == crate::sgf_voice::sgf_vol_spec(pre.vol as int, value as int))
    &&& (pre.vce is None ==> post.vce is None)
}

pub open spec fn sgf_pitch_rel(pre: InstSgf, post: InstSgf, bend: i16, tune_coarse: u8, tune_fine: u8) -> bool {
    &&& sgf_same_controls(post, (InstSgf { pit: post.pit, ..pre }))
    &&& post.pit as int == pitch_cents_spec(bend as int, tune_coarse as int, tune_fine as int)
    &&& post.vcevec@ == pre.vcevec@
    &&& post.active_vce_index == pre.active_vce_index
    &&& (pre.vce is Some ==> post.vce is Some
        && post.vce->0.vcl.cnt_ratio == crate::msgf_osc::cnt_pitch_spec(post.pit as int))
    &&& (pre.vce is None ==> post.vce is None)
}

pub open spec fn sgf_all_sound_off_rel(pre: InstSgf, post: InstSgf) -> bool {
    &&& sgf_same_controls(post, pre)
    &&& post.vcevec@ == pre.vcevec@
    &&& post.active_vce_index == pre.active_vce_index
    &&& (pre.vce is Some ==> post.vce is Some
        && post.vce->0 == (VoiceSgf {
            status: NoteStatus::DuringDamp,
            damp_counter: 0,
            ..pre.vce->0
        }))
    &&& (pre.vce is None ==> post.vce is None)
}

pub open spec fn sgf_set_prm_rel(pre: InstSgf, post: InstSgf, prm_type: u8, value: u8) -> bool {
    &&& sgf_same_controls(post, (InstSgf { spmsg: post.spmsg, ..pre }))
    &&& post.vcevec@ == pre.vcevec@
    &&& post.active_vce_index == pre.active_vce_index
    &&& (post.vce is Some <==> pre.vce is Some)
    &&& (prm_type < 4 ==> post.spmsg@ == pre.spmsg@.update(prm_type as int, value))
    &&& (prm_type >= 4 ==> post == pre)
    &&& ((prm_type == 2 && pre.vce is Some)
        ==> post.vce->0.vowel_x == crate::sgf_voice::vowel_pos_spec(value as int)
            && crate::sgf_voice::formants_follow_vowel(post.vce->0)
            && crate::sgf_voice::formants_hold(post.vce->0))
    &&& ((prm_type == 3 && pre.vce is Some)
        ==> post.vce->0.vowel_y == crate::sgf_voice::vowel_pos_spec(value as int)
            && crate::sgf_voice::formants_follow_vowel(post.vce->0)
            && crate::sgf_voice::formants_hold(post.vce->0))
}

pub open spec fn sgf_note_off_rel(pre: InstSgf, post: InstSgf, dt2: u8) -> bool {
    &&& sgf_same_controls(post, pre)
    &&& (post.vce is Some <==> pre.vce is Some)
    &&& ({
        let idx = find_key_spec(pre.vcevec@, dt2, 0);
        if idx >= pre.vcevec@.len() {
            post.vcevec@ == pre.vcevec@
                && post.vce == pre.vce
                && post.active_vce_index == pre.active_vce_index
        } else if idx == pre.active_vce_index {
            post.vcevec@ == pre.vcevec@.update(idx,
                NoteSgf { off: true, ..pre.vcevec@[idx] })
                && post.active_vce_index == pre.active_vce_index
                && (pre.vce is Some ==> post.vce->0.status == NoteStatus::AfterNoteOff)
        } else {
            post.vcevec@ == pre.vcevec@.remove(idx)
                && post.vce == pre.vce
                && post.active_vce_index as int
                    == (if idx < pre.active_vce_index {
                            pre.active_vce_index - 1
                        } else {
                            pre.active_vce_index as int
                        })
        }
    })
}

pub open spec fn sgf_note_on_rel(pre: InstSgf, post: InstSgf, dt2: u8, dt3: u8) -> bool {
    &&& sgf_same_controls(post, pre)
    &&& post.vce is Some
    &&& post.vcevec@.len() >= 1
    &&& post.vcevec@[post.vcevec@.len() - 1] == (NoteSgf { note: dt2, vel: dt3, off: false })
    &&& post.active_vce_index as int == post.vcevec@.len() - 1
    &&& post.vce->0.status == NoteStatus::DuringNoteOn
    &&& (pre.vce is Some ==> {
        &&& post.vce->0.vcl.target_pitch == crate::msgf_osc::base_pitch_spec(
                pre.vce->0.vcl.prms_variable.coarse_tune as int,
                pre.vce->0.vcl.prms_variable.fine_tune as int,
                (dt2 - NOTE_OFFSET) as int)
        &&& post.vce->0.vcl.base_pitch == pre.vce->0.vcl.base_pitch
        &&& post.vcevec@.len() <= pre.vcevec@.len() + 1
    })
    &&& (pre.vce is None ==> post.vcevec@.len() <= pre.vcevec@.len() + 1)
}

pub open spec fn sgf_change_inst_rel(pre: InstSgf, post: InstSgf, vol: u8, pan: u8, exp: u8) -> bool {
    &&& post.vcevec@ == pre.vcevec@
    &&& post.vce == pre.vce
    &&& post.active_vce_index == pre.active_vce_index
    &&& post.mdlt == pre.mdlt
    &&& post.pit == 0
    &&& post.vol == vol
    &&& post.pan as int == pan_spec(pan as int)
    &&& post.exp == exp
    &&& post.spmsg == pre.spmsg
    &&& post.prms == sgf_tone_prm_spec()
    &&& post.inst_number == 0
}

/// What one rendered block does to the singing instrument's control
/// state: the cached controls stay, the sounding voice takes its block
/// step, and a finished voice is retired with its stack entry.
pub open spec fn sgf_processed_rel(pre: InstSgf, post: InstSgf, n: int) -> bool {
    &&& post.prms == pre.prms
    &&& post.inst_number == pre.inst_number
    &&& post.mdlt == pre.mdlt
    &&& post.pit == pre.pit
    &&& post.vol == pre.vol
    &&& post.pan == pre.pan
    &&& post.exp == pre.exp
    &&& post.spmsg == pre.spmsg
    &&& (pre.vce is None ==> post.vce == pre.vce
        && post.vcevec@ == pre.vcevec@
        && post.active_vce_index == pre.active_vce_index)
    &&& (pre.vce is Some && !sgf_voice_would_end(pre.vce->0, n) ==> {
        &&& post.vce is Some
        &&& sgf_voice_processed_rel(pre.vce->0, post.vce->0, n)
        &&& post.vcevec@ == pre.vcevec@
        &&& post.active_vce_index == pre.active_vce_index
    })
    &&& (pre.vce is Some && sgf_voice_would_end(pre.vce->0, n) ==> {
        &&& post.vce is None
        &&& post.active_vce_index == -1
        &&& post.vcevec@ == (
            if 0 <= pre.active_vce_index {
                pre.vcevec@.remove(pre.active_vce_index as int)
            } else {
                pre.vcevec@
            })
    })
}

/// Re-sending the same modulation value to the singing instrument is
/// idempotent.
pub proof fn lemma_sgf_modulation_idempotent(p0: InstSgf, p1: InstSgf, p2: InstSgf, value: u8)
    requires
        sgf_modulation_rel(p0, p1, value),
        sgf_modulation_rel(p1, p2, value),
    ensures
        p2.vce == p1.vce,
        p2.vcevec@ == p1.vcevec@,
        p2.active_vce_index == p1.active_vce_index,
        sgf_same_controls(p2, p1),
{
    if p1.vce is Some {
        assert(p1.vce->0.vcl.pmd == p1.mdlt);
    }
}

/// Repeating a preset switch with the same arguments leaves the same
/// sounding state as one call.
pub proof fn lemma_sgf_change_inst_idempotent(p0: InstSgf, p1: InstSgf, p2: InstSgf,
    vol: u8, pan: u8, exp: u8)
    requires
        sgf_change_inst_rel(p0, p1, vol, pan, exp),
        sgf_change_inst_rel(p1, p2, vol, pan, exp),
    ensures
        p2.vce == p1.vce,
        p2.vcevec@ == p1.vcevec@,
        p2.active_vce_index == p1.active_vce_index,
        p2.prms == p1.prms,
        p2.mdlt == p1.mdlt,
        p2.pit == p1.pit,
        p2.vol == p1.vol,
        p2.pan == p1.pan,
        p2.exp == p1.exp,
        p2.spmsg == p1.spmsg,
{
}

pub struct InstSgf {
    pub vce_audio: AudioFrame,
    pub inst_audio: AudioFrame,
    pub vcevec: Vec<NoteSgf>,
    pub vce: Option<VoiceSgf>,
    pub active_vce_index: i32,
    pub inst_number: usize,
    pub prms: SynthParameter,
    pub mdlt: i32,  //  Q15
    pub pit: i32,   //  [cent]
    pub vol: u8,
    pub pan: i32,   //  Q15
    pub exp: u8,
    pub spmsg: [u8; 4],
}

impl InstSgf {
    pub open spec fn wf(self) -> bool {
        &&& self.vce_audio.wf()
        &&& self.vce_audio.capacity() == MAX_BUFFER_SIZE
        &&& self.inst_audio.wf()
        &&& self.inst_audio.capacity() == MAX_BUFFER_SIZE
        &&& (self.vce is Some ==> self.vce->0.wf())
        &&& sgf_prm_wf(self.prms)
        &&& 0 <= self.mdlt <= 32768
        &&& -CENTS_LIMIT <= self.pit <= CENTS_LIMIT
        &&& 0 <= self.pan <= 32768
        &&& -1 <= self.active_vce_index
        &&& self.active_vce_index < self.vcevec@.len()
        &&& self.vcevec@.len() < 0x10000
    }

    /// How many keys are held on the stack.
    pub fn note_stack_len(&self) -> (r: usize)
        ensures
            r == self.vcevec@.len(),
    {
        self.vcevec.len()
    }

    /// Whether a voice is currently sounding.
    pub fn has_voice(&self) -> (r: bool)
        ensures
            r == (self.vce is Some),
    {
        self.vce.is_some()
    }

    /// The centres of the two formant band-passes, in Hz.
    pub fn formant_centres(&self) -> (r: (u32, u32))
        requires
            self.vce is Some,
        ensures
            r.0 == self.vce->0.frm1_freq,
            r.1 == self.vce->0.frm2_freq,
    {
        match &self.vce {
            Some(v) => (v.frm1_freq, v.frm2_freq),
            None => (0, 0),
        }
    }

    /// The sounding voice's base and target pitch, Q16 Hz.
    pub fn voice_pitch(&self) -> (r: (u32, u32))
        requires
            self.vce is Some,
        ensures
            r.0 == self.vce->0.vcl.base_pitch,
            r.1 == self.vce->0.vcl.target_pitch,
    {
        match &self.vce {
            Some(v) => (v.vcl.base_pitch, v.vcl.target_pitch),
            None => (0, 0),
        }
    }

    /// Whether the sounding voice, if any, is in the damp fade or done.
    pub fn voice_status(&self) -> (r: Option<NoteStatus>)
        ensures
            self.vce is Some ==> r == Some(self.vce->0.status),
            self.vce is None ==> r is None,
    {
        match &self.vce {
            Some(v) => Some(v.status()),
            None => None,
        }
    }

    pub fn new(inst_number: usize, vol: u8, pan: u8, exp: u8) -> (r: InstSgf)
        ensures
            r.wf(),
            inst_sgf_fresh(r, vol as int, pan as int, exp as int),
    {
        let num = if inst_number >= SGF_MAX_TONE_COUNT { SGF_MAX_TONE_COUNT - 1 } else { inst_number };
        let prms = sgf_tone_prm(num);
        InstSgf {
            vce_audio: AudioFrame::new(0, MAX_BUFFER_SIZE),
            inst_audio: AudioFrame::new(0, MAX_BUFFER_SIZE),
            vcevec: Vec::new(),
            vce: None,
            active_vce_index: -1,
            inst_number: num,
            prms,
            mdlt: 0,
            pit: 0,
            vol,
            pan: crate::va_inst::InstVa::calc_pan(pan),
            exp,
            spmsg: [0, 0, 0, 0],
        }
    }

    /// Switch preset: fresh parameters, cleared pitch offset, new
    /// volume, pan and expression; the stack and voice stay.
    pub fn change_inst(&mut self, inst_number: usize, vol: u8, pan: u8, exp: u8)
        requires
            old(self).wf(),
        ensures
            final(self).wf(),
            sgf_change_inst_rel(*old(self), *final(self), vol, pan, exp),
            final(self).vcevec@ == old(self).vcevec@,
            final(self).vce == old(self).vce,
            final(self).active_vce_index == old(self).active_vce_index,
            final(self).mdlt == old(self).mdlt,
            final(self).pit == 0,
            final(self).vol == vol,
            final(self).pan as int == pan_spec(pan as int),
            final(self).exp == exp,
            final(self).spmsg == old(self).spmsg,
            final(self).prms == sgf_tone_prm_spec(),
            final(self).inst_number == 0,
    {
        let num = if inst_number >= SGF_MAX_TONE_COUNT { SGF_MAX_TONE_COUNT - 1 } else { inst_number };
        self.prms = sgf_tone_prm(num);
        self.inst_number = num;
        self.pit = 0;
        self.vol = vol;
        self.pan = crate::va_inst::InstVa::calc_pan(pan);
        self.exp = exp;
    }

    /// Release a key.  Releasing the sounding one releases the voice and
    /// marks the stack entry; releasing another just drops it from the
    /// stack, shifting the active index along.
    pub fn note_off(&mut self, dt2: u8, _dt3: u8)
        requires
            old(self).wf(),
        ensures
            final(self).wf(),
            sgf_note_off_rel(*old(self), *final(self), dt2),
            final(self).vce is Some <==> old(self).vce is Some,
            ({
                let idx = find_key_spec(old(self).vcevec@, dt2, 0);
                if idx >= old(self).vcevec@.len() {
                    final(self).vcevec@ == old(self).vcevec@
                        && final(self).vce == old(self).vce
                        && final(self).active_vce_index == old(self).active_vce_index
                } else if idx == old(self).active_vce_index {
                    final(self).vcevec@ == old(self).vcevec@.update(idx,
                        NoteSgf { off: true, ..old(self).vcevec@[idx] })
                        && final(self).active_vce_index == old(self).active_vce_index
                        && (old(self).vce is Some
                            ==> final(self).vce->0.status == NoteStatus::AfterNoteOff)
                } else {
                    final(self).vcevec@ == old(self).vcevec@.remove(idx)
                        && final(self).vce == old(self).vce
                        && final(self).active_vce_index as int
                            == (if idx < old(self).active_vce_index {
                                    old(self).active_vce_index - 1
                                } else {
                                    old(self).active_vce_index as int
                                })
                }
            }),
    {
        let nt_idx = self.search_note(dt2);
        match nt_idx {
            None => {}
            Some(idx) => {
                proof {
                    lemma_find_key_range(self.vcevec@, dt2, 0);
                    assert(find_key_spec(self.vcevec@, dt2, 0) < self.vcevec@.len());
                    assert(idx == find_key_spec(self.vcevec@, dt2, 0));
                    assert(idx < self.vcevec@.len());
                }
                if self.active_vce_index >= 0 && idx == self.active_vce_index as usize {
                    match &mut self.vce {
                        Some(cur_vce) => {
                            cur_vce.note_off();
                        }
                        None => {}
                    }
                    let e = self.vcevec[idx];
                    self.vcevec.set(idx, NoteSgf { off: true, ..e });
                } else {
                    self.vcevec.remove(idx);
                    if (idx as i32) < self.active_vce_index {
                        self.active_vce_index = self.active_vce_index - 1;
                    }
                }
            }
        }
    }

    /// Press a key: slide the sounding voice or start a fresh one, then
    /// push the key and make it the active one.  A released active entry
    /// is dropped first.
    pub fn note_on(&mut self, dt2: u8, dt3: u8)
        requires
            old(self).wf(),
            dt2 >= NOTE_OFFSET,
        ensures
            final(self).wf(),
            sgf_note_on_rel(*old(self), *final(self), dt2, dt3),
            final(self).vce is Some,
            final(self).vcevec@.len() >= 1,
            final(self).vcevec@[final(self).vcevec@.len() - 1] == (NoteSgf { note: dt2, vel: dt3, off: false }),
            final(self).active_vce_index as int == final(self).vcevec@.len() - 1,
            final(self).vce->0.status == NoteStatus::DuringNoteOn,
            old(self).vce is Some ==> {
                &&& final(self).vce->0.vcl.target_pitch == crate::msgf_osc::base_pitch_spec(
                        old(self).vce->0.vcl.prms_variable.coarse_tune as int,
                        old(self).vce->0.vcl.prms_variable.fine_tune as int,
                        (dt2 - NOTE_OFFSET) as int)
                &&& final(self).vce->0.vcl.base_pitch == old(self).vce->0.vcl.base_pitch
                &&& final(self).vcevec@.len() <= old(self).vcevec@.len() + 1
            },
            old(self).vce is None
                ==> final(self).vcevec@.len() <= old(self).vcevec@.len() + 1,
    {
        match &mut self.vce {
            Some(cur_vce) => {
                cur_vce.slide(dt2, dt3);
            }
            None => {
                let mut new_vce = VoiceSgf::new(dt2, dt3, self.mdlt, self.pit, self.vol,
                    self.exp, &self.prms);
                new_vce.set_prm(0, self.spmsg[0]);
                new_vce.set_prm(1, self.spmsg[1]);
                new_vce.set_prm(2, self.spmsg[2]);
                new_vce.set_prm(3, self.spmsg[3]);
                new_vce.start_sound();
                self.vce = Some(new_vce);
            }
        }
        if self.active_vce_index >= 0 {
            let cur = self.active_vce_index as usize;
            if self.vcevec[cur].off {
                self.vcevec.remove(cur);
                self.active_vce_index = -1;
            }
        }
        if self.vcevec.len() >= 0xffff {
            // a guard with no musical meaning: a host that never releases
            // keys would otherwise overflow the active index; the oldest
            // held key is forgotten instead
            self.vcevec.remove(0);
        }
        self.vcevec.push(NoteSgf { note: dt2, vel: dt3, off: false });
        self.active_vce_index = (self.vcevec.len() as i32) - 1;
    }

    pub fn modulation(&mut self, value: u8)
        requires
            old(self).wf(),
        ensures
            final(self).wf(),
            sgf_modulation_rel(*old(self), *final(self), value),
            final(self).mdlt as int == mod_depth_spec(value as int),
            final(self).vcevec@ == old(self).vcevec@,
            final(self).active_vce_index == old(self).active_vce_index,
            old(self).vce is Some ==> final(self).vce is Some
                && final(self).vce->0 == (VoiceSgf {
                    vcl: crate::msgf_vocal::Vocal { pmd: final(self).mdlt, ..old(self).vce->0.vcl },
                    ..old(self).vce->0
                }),
            old(self).vce is None ==> final(self).vce is None,
    {
        let m0: i32 = ((value as i32) * 16384) / 127;
        let mdlt: i32 = if m0 > 32768 { 32768 } else { m0 };
        self.mdlt = mdlt;
        match &mut self.vce {
            Some(cur_vce) => {
                cur_vce.change_pmd(mdlt);
            }
            None => {}
        }
    }

    pub fn volume(&mut self, value: u8)
        requires
            old(self).wf(),
        ensures
            final(self).wf(),
            sgf_volume_rel(*old(self), *final(self), value),
            final(self).vol == value,
            final(self).vcevec@ == old(self).vcevec@,
            final(self).active_vce_index == old(self).active_vce_index,
            old(self).vce is Some ==> final(self).vce is Some
                && final(self).vce->0 == (VoiceSgf {
                    max_note_vol: final(self).vce->0.max_note_vol,
                    ..old(self).vce->0
                })
                && final(self).vce->0.max_note_vol as int
                    == crate::sgf_voice::sgf_vol_spec(value as int, old(self).exp as int),
            old(self).vce is None ==> final(self).vce is None,
    {
        self.vol = value;
        let exp = self.exp;
        match &mut self.vce {
            Some(cur_vce) => {
                cur_vce.amplitude(value, exp);
            }
            None => {}
        }
    }

    pub fn pan(&mut self, value: u8)
        requires
            old(self).wf(),
        ensures
            final(self).wf(),
            sgf_pan_rel(*old(self), *final(self), value),
            final(self).pan as int == pan_spec(value as int),
            final(self).vcevec@ == old(self).vcevec@,
            final(self).vce == old(self).vce,
            final(self).active_vce_index == old(self).active_vce_index,
    {
        self.pan = crate::va_inst::InstVa::calc_pan(value);
    }

    pub fn expression(&mut self, value: u8)
        requires
            old(self).wf(),
        ensures
            final(self).wf(),
            sgf_expression_rel(*old(self), *final(self), value),
            final(self).exp == value,
            final(self).vcevec@ == old(self).vcevec@,
            final(self).active_vce_index == old(self).active_vce_index,
            old(self).vce is Some ==> final(self).vce is Some
                && final(self).vce->0 == (VoiceSgf {
                    max_note_vol: final(self).vce->0.max_note_vol,
                    ..old(self).vce->0
                })
                && final(self).vce->0.max_note_vol as int
                    == crate::sgf_voice::sgf_vol_spec(old(self).vol as int, value as int),
            old(self).vce is None ==> final(self).vce is None,
    {
        self.exp = value;
        let vol = self.vol;
        match &mut self.vce {
            Some(cur_vce) => {
                cur_vce.amplitude(vol, value);
            }
            None => {}
        }
    }

    pub fn pitch(&mut self, bend: i16, tune_coarse: u8, tune_fine: u8)
        requires
            old(self).wf(),
            -8192 <= bend <= 8191,
            tune_coarse < 128,
            tune_fine < 128,
        ensures
            final(self).wf(),
            sgf_pitch_rel(*old(self), *final(self), bend, tune_coarse, tune_fine),
            final(self).pit as int
                == pitch_cents_spec(bend as int, tune_coarse as int, tune_fine as int),
            final(self).vcevec@ == old(self).vcevec@,
            final(self).active_vce_index == old(self).active_vce_index,
            old(self).vce is Some ==> final(self).vce is Some
                && final(self).vce->0.vcl.cnt_ratio
                    == crate::msgf_osc::cnt_pitch_spec(final(self).pit as int),
            old(self).vce is None ==> final(self).vce is None,
    {
        let b = crate::msgf_fp::tdiv64(bend as i64 * 200, 8192) as i32;
        let tf = crate::msgf_fp::tdiv64((tune_fine as i64 - 64) * 100, 64) as i32;
        let pit: i32 = b + (tune_coarse as i32 - 64) * 100 + tf;
        proof {
            crate::msgf_fp::lemma_tdiv_bound(bend as int * 200, 8192, (8192 * 200) as int);
            crate::msgf_fp::lemma_tdiv_bound((tune_fine as int - 64) * 100, 64, (64 * 100) as int);
        }
        self.pit = pit;
        match &mut self.vce {
            Some(cur_vce) => {
                cur_vce.pitch(pit);
            }
            None => {}
        }
    }

    /// The sustain pedal is not interpreted by this instrument.
    pub fn sustain(&mut self, _value: u8)
        requires
            old(self).wf(),
        ensures
            *final(self) == *old(self),
    {
    }

    /// Damp the sounding voice at once.
    pub fn all_sound_off(&mut self)
        requires
            old(self).wf(),
        ensures
            final(self).wf(),
            sgf_all_sound_off_rel(*old(self), *final(self)),
            final(self).vcevec@ == old(self).vcevec@,
            final(self).active_vce_index == old(self).active_vce_index,
            old(self).vce is Some ==> final(self).vce is Some
                && final(self).vce->0 == (VoiceSgf {
                    status: NoteStatus::DuringDamp,
                    damp_counter: 0,
                    ..old(self).vce->0
                }),
            old(self).vce is None ==> final(self).vce is None,
    {
        match &mut self.vce {
            Some(cur_vce) => {
                cur_vce.damp();
            }
            None => {}
        }
    }

    /// Route a per-voice parameter, caching it for future voices.
    pub fn set_prm(&mut self, prm_type: u8, value: u8)
        requires
            old(self).wf(),
        ensures
            final(self).wf(),
            sgf_set_prm_rel(*old(self), *final(self), prm_type, value),
            final(self).vcevec@ == old(self).vcevec@,
            final(self).active_vce_index == old(self).active_vce_index,
            final(self).vce is Some <==> old(self).vce is Some,
            prm_type < 4 ==> final(self).spmsg@ == old(self).spmsg@.update(prm_type as int, value),
            prm_type >= 4 ==> *final(self) == *old(self),
            (prm_type == 0 && old(self).vce is Some)
                ==> crate::msgf_biquad::lpf_coefs_hold(final(self).vce->0.lpf,
                    crate::sgf_voice::lpf_cutoff_spec(value as int), 65536),
            (prm_type == 2 && old(self).vce is Some)
                ==> final(self).vce->0.vowel_x == crate::sgf_voice::vowel_pos_spec(value as int)
                    && crate::sgf_voice::formants_follow_vowel(final(self).vce->0)
                    && crate::sgf_voice::formants_hold(final(self).vce->0),
            (prm_type == 3 && old(self).vce is Some)
                ==> final(self).vce->0.vowel_y == crate::sgf_voice::vowel_pos_spec(value as int)
                    && crate::sgf_voice::formants_follow_vowel(final(self).vce->0)
                    && crate::sgf_voice::formants_hold(final(self).vce->0),
    {
        if prm_type < 4 {
            self.spmsg[prm_type as usize] = value;
            match &mut self.vce {
                Some(cur_vce) => {
                    cur_vce.set_prm(prm_type, value);
                }
                None => {}
            }
        }
    }

    /// Render one block: the sounding voice renders into the instrument
    /// bus, the bus is panned into the stereo pair, and a voice that
    /// finished its fade is retired together with its stack entry.
    pub fn process(&mut self, abuf_l: &mut AudioFrame, abuf_r: &mut AudioFrame,
        in_number_frames: usize)
        requires
            old(self).wf(),
            old(abuf_l).wf(),
            old(abuf_r).wf(),
            old(abuf_l).sample_number == in_number_frames,
            old(abuf_r).sample_number == in_number_frames,
            (in_number_frames as int) % (AUDIO_FRAME_PER_CONTROL as int) == 0,
            in_number_frames <= MAX_BUFFER_SIZE,
        ensures
            final(self).wf(),
            final(abuf_l).wf(),
            final(abuf_r).wf(),
            final(abuf_l).capacity() == old(abuf_l).capacity(),
            final(abuf_r).capacity() == old(abuf_r).capacity(),
            final(abuf_l).sample_number == old(abuf_l).sample_number,
            final(abuf_r).sample_number == old(abuf_r).sample_number,
            final(self).prms == old(self).prms,
            final(self).mdlt == old(self).mdlt,
            final(self).pit == old(self).pit,
            final(self).vol == old(self).vol,
            final(self).pan == old(self).pan,
            final(self).exp == old(self).exp,
            sgf_processed_rel(*old(self), *final(self), in_number_frames as int),
            final(self).vce is Some ==> !final(self).vce->0.ended,
    {
        self.vce_audio.set_sample_number(in_number_frames);
        self.inst_audio.set_sample_number(in_number_frames);
        self.inst_audio.clr_abuf();
        let mut vce_ended = false;
        match &mut self.vce {
            Some(cur_vce) => {
                vce_ended = cur_vce.process(&mut self.vce_audio, in_number_frames);
            }
            None => {}
        }
        self.inst_audio.mul_and_mix(&self.vce_audio, 32768);
        let pan = self.pan;
        abuf_l.mul_and_mix(&self.inst_audio, 32768 - pan);
        abuf_r.mul_and_mix(&self.inst_audio, pan);
        if vce_ended {
            self.vce = None;
            if self.active_vce_index >= 0 {
                let cur = self.active_vce_index as usize;
                self.vcevec.remove(cur);
                self.active_vce_index = -1;
            }
        }
    }

    /// The first stack index holding the note.
    fn search_note(&self, note_num: u8) -> (r: Option<usize>)
        requires
            self.wf(),
        ensures
            ({
                let idx = find_key_spec(self.vcevec@, note_num, 0);
                if idx < self.vcevec@.len() {
                    r == Some(idx as usize)
                } else {
                    r is None
                }
            }),
    {
        let ghost s0: Seq<NoteSgf> = self.vcevec@;
        let max_note = self.vcevec.len();
        let mut i: usize = 0;
        while i < max_note
            invariant
                i <= max_note,
                max_note == self.vcevec@.len(),
                s0 == self.vcevec@,
                find_key_spec(s0, note_num, 0) == find_key_spec(s0, note_num, i as int),
            decreases max_note - i,
        {
            if self.vcevec[i].note == note_num {
                proof {
                    assert(find_key_spec(s0, note_num, i as int) == i as int);
                }
                return Some(i);
            }
            proof {
                assert(find_key_spec(s0, note_num, i as int) == find_key_spec(s0, note_num, i as int + 1));
            }
            i += 1;
        }
        proof {
            assert(find_key_spec(s0, note_num, 0) == s0.len() as int);
        }
        None
    }
}

} // verus!
