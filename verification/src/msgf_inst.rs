//
//  msgf_inst.rs
//  Musical Sound Generator Framework
//      Instrument dispatch
//
//  The two voice-management policies behind one face: the polyphonic
//  pool and the monophonic note stack.  A program number picks which
//  one a channel plays.
//
use vstd::prelude::*;

use crate::{AUDIO_FRAME_PER_CONTROL, MAX_BUFFER_SIZE};
use crate::msgf_afrm::AudioFrame;
use crate::va_inst::{InstVa, va_modulation_rel, va_volume_rel, va_pan_rel, va_expression_rel,
    va_pitch_rel, va_all_sound_off_rel, va_set_prm_rel, va_note_on_rel, va_note_off_rel,
    va_change_inst_rel};
use crate::sgf_inst::{InstSgf, sgf_modulation_rel, sgf_volume_rel, sgf_pan_rel,
    sgf_expression_rel, sgf_pitch_rel, sgf_all_sound_off_rel, sgf_set_prm_rel, sgf_note_on_rel,
    sgf_note_off_rel, sgf_change_inst_rel};

verus! {

pub enum Inst {
    Va(InstVa),
    Sgf(InstSgf),
}

/// The polyphonic tone a program number selects.
pub open spec fn va_tone_of_program(inst_number: int) -> int {
    if inst_number < 6 {
        inst_number
    } else if inst_number < 8 {
        5
    } else if inst_number == 16 {
        4
    } else {
        5
    }
}

/// The instrument a program number selects: the first eight programs
/// and two codas play the polyphonic pool, the singing programs
/// (including the whole sing family of the preset provider) the
/// monophonic stack; a program past the defined range falls back to the
/// highest defined one, which is a singing program.
pub fn get_inst(inst_number: usize, vol: u8, pan: u8, exp: u8) -> (r: Inst)
    ensures
        r.wf(),
        (inst_number < 8 || inst_number == 16 || inst_number == 17) ==> r is Va
            && crate::va_inst::inst_va_fresh(r->Va_0, va_tone_of_program(inst_number as int),
                vol as int, pan as int, exp as int),
        !(inst_number < 8 || inst_number == 16 || inst_number == 17) ==> r is Sgf
            && crate::sgf_inst::inst_sgf_fresh(r->Sgf_0, vol as int, pan as int, exp as int),
{
    if inst_number < 8 {
        Inst::Va(InstVa::new(inst_number, vol, pan, exp))
    } else if inst_number == 8 || inst_number == 9 || inst_number == 10 {
        Inst::Sgf(InstSgf::new(0, vol, pan, exp))
    } else if inst_number == 16 {
        Inst::Va(InstVa::new(4, vol, pan, exp))
    } else if inst_number == 17 {
        Inst::Va(InstVa::new(5, vol, pan, exp))
    } else {
        Inst::Sgf(InstSgf::new(0, vol, pan, exp))
    }
}


/// Forwarding relations: what each channel operation does to whichever
/// instrument the channel plays.
pub open spec fn inst_modulation_rel(pre: Inst, post: Inst, value: u8) -> bool {
    match (pre, post) {
        (Inst::Va(a), Inst::Va(b)) => va_modulation_rel(a, b, value),
        (Inst::Sgf(a), Inst::Sgf(b)) => sgf_modulation_rel(a, b, value),
        _ => false,
    }
}

pub open spec fn inst_volume_rel(pre: Inst, post: Inst, value: u8) -> bool {
    match (pre, post) {
        (Inst::Va(a), Inst::Va(b)) => va_volume_rel(a, b, value),
        (Inst::Sgf(a), Inst::Sgf(b)) => sgf_volume_rel(a, b, value),
        _ => false,
    }
}

pub open spec fn inst_pan_rel(pre: Inst, post: Inst, value: u8) -> bool {
    match (pre, post) {
        (Inst::Va(a), Inst::Va(b)) => va_pan_rel(a, b, value),
        (Inst::Sgf(a), Inst::Sgf(b)) => sgf_pan_rel(a, b, value),
        _ => false,
    }
}

pub open spec fn inst_expression_rel(pre: Inst, post: Inst, value: u8) -> bool {
    match (pre, post) {
        (Inst::Va(a), Inst::Va(b)) => va_expression_rel(a, b, value),
        (Inst::Sgf(a), Inst::Sgf(b)) => sgf_expression_rel(a, b, value),
        _ => false,
    }
}

pub open spec fn inst_pitch_rel(pre: Inst, post: Inst, bend: i16, tune_coarse: u8, tune_fine: u8) -> bool {
    match (pre, post) {
        (Inst::Va(a), Inst::Va(b)) => va_pitch_rel(a, b, bend, tune_coarse, tune_fine),
        (Inst::Sgf(a), Inst::Sgf(b)) => sgf_pitch_rel(a, b, bend, tune_coarse, tune_fine),
        _ => false,
    }
}

pub open spec fn inst_all_sound_off_rel(pre: Inst, post: Inst) -> bool {
    match (pre, post) {
        (Inst::Va(a), Inst::Va(b)) => va_all_sound_off_rel(a, b),
        (Inst::Sgf(a), Inst::Sgf(b)) => sgf_all_sound_off_rel(a, b),
        _ => false,
    }
}

pub open spec fn inst_set_prm_rel(pre: Inst, post: Inst, prm_type: u8, value: u8) -> bool {
    match (pre, post) {
        (Inst::Va(a), Inst::Va(b)) => va_set_prm_rel(a, b, prm_type, value),
        (Inst::Sgf(a), Inst::Sgf(b)) => sgf_set_prm_rel(a, b, prm_type, value),
        _ => false,
    }
}

pub open spec fn inst_note_on_rel(pre: Inst, post: Inst, dt2: u8, dt3: u8) -> bool {
    match (pre, post) {
        (Inst::Va(a), Inst::Va(b)) => va_note_on_rel(a, b, dt2, dt3),
        (Inst::Sgf(a), Inst::Sgf(b)) => if dt2 >= crate::sgf_voice::NOTE_OFFSET {
            sgf_note_on_rel(a, b, dt2, dt3)
        } else {
            b == a
        },
        _ => false,
    }
}

pub open spec fn inst_note_off_rel(pre: Inst, post: Inst, dt2: u8) -> bool {
    match (pre, post) {
        (Inst::Va(a), Inst::Va(b)) => va_note_off_rel(a, b, dt2),
        (Inst::Sgf(a), Inst::Sgf(b)) => sgf_note_off_rel(a, b, dt2),
        _ => false,
    }
}

pub open spec fn inst_processed_rel(pre: Inst, post: Inst, n: int) -> bool {
    match (pre, post) {
        (Inst::Va(a), Inst::Va(b)) => crate::va_inst::va_processed_rel(a, b, n),
        (Inst::Sgf(a), Inst::Sgf(b)) => crate::sgf_inst::sgf_processed_rel(a, b, n),
        _ => false,
    }
}

pub open spec fn inst_change_inst_rel(pre: Inst, post: Inst, inst_number: int, vol: u8, pan: u8, exp: u8) -> bool {
    match (pre, post) {
        (Inst::Va(a), Inst::Va(b)) => va_change_inst_rel(a, b, inst_number, vol, pan, exp),
        (Inst::Sgf(a), Inst::Sgf(b)) => sgf_change_inst_rel(a, b, vol, pan, exp),
        _ => false,
    }
}

impl Inst {
    pub open spec fn wf(self) -> bool {
        match self {
            Inst::Va(i) => i.wf(),
            Inst::Sgf(i) => i.wf(),
        }
    }

    pub fn note_off(&mut self, dt2: u8, dt3: u8)
        requires
            old(self).wf(),
        ensures
            final(self).wf(),
            inst_note_off_rel(*old(self), *final(self), dt2),
    {
        match self {
            Inst::Va(i) => i.note_off(dt2, dt3),
            Inst::Sgf(i) => i.note_off(dt2, dt3),
        }
    }

    pub fn note_on(&mut self, dt2: u8, dt3: u8)
        requires
            old(self).wf(),
        ensures
            final(self).wf(),
            inst_note_on_rel(*old(self), *final(self), dt2, dt3),
    {
        match self {
            Inst::Va(i) => i.note_on(dt2, dt3),
            Inst::Sgf(i) => {
                if dt2 >= crate::sgf_voice::NOTE_OFFSET {
                    i.note_on(dt2, dt3);
                }
            }
        }
    }

    pub fn modulation(&mut self, value: u8)
        requires
            old(self).wf(),
        ensures
            final(self).wf(),
            inst_modulation_rel(*old(self), *final(self), value),
    {
        match self {
            Inst::Va(i) => i.modulation(value),
            Inst::Sgf(i) => i.modulation(value),
        }
    }

    pub fn volume(&mut self, value: u8)
        requires
            old(self).wf(),
        ensures
            final(self).wf(),
            inst_volume_rel(*old(self), *final(self), value),
    {
        match self {
            Inst::Va(i) => i.volume(value),
            Inst::Sgf(i) => i.volume(value),
        }
    }

    pub fn pan(&mut self, value: u8)
        requires
            old(self).wf(),
        ensures
            final(self).wf(),
            inst_pan_rel(*old(self), *final(self), value),
    {
        match self {
            Inst::Va(i) => i.pan(value),
            Inst::Sgf(i) => i.pan(value),
        }
    }

    pub fn expression(&mut self, value: u8)
        requires
            old(self).wf(),
        ensures
            final(self).wf(),
            inst_expression_rel(*old(self), *final(self), value),
    {
        match self {
            Inst::Va(i) => i.expression(value),
            Inst::Sgf(i) => i.expression(value),
        }
    }

    pub fn pitch(&mut self, bend: i16, tune_coarse: u8, tune_fine: u8)
        requires
            old(self).wf(),
            -8192 <= bend <= 8191,
            tune_coarse < 128,
            tune_fine < 128,
        ensures
            final(self).wf(),
            inst_pitch_rel(*old(self), *final(self), bend, tune_coarse, tune_fine),
    {
        match self {
            Inst::Va(i) => i.pitch(bend, tune_coarse, tune_fine),
            Inst::Sgf(i) => i.pitch(bend, tune_coarse, tune_fine),
        }
    }

    pub fn sustain(&mut self, value: u8)
        requires
            old(self).wf(),
        ensures
            final(self).wf(),
            *final(self) == *old(self),
    {
        match self {
            Inst::Va(i) => i.sustain(value),
            Inst::Sgf(i) => i.sustain(value),
        }
    }

    pub fn all_sound_off(&mut self)
        requires
            old(self).wf(),
        ensures
            final(self).wf(),
            inst_all_sound_off_rel(*old(self), *final(self)),
    {
        match self {
            Inst::Va(i) => i.all_sound_off(),
            Inst::Sgf(i) => i.all_sound_off(),
        }
    }

    pub fn set_prm(&mut self, prm_type: u8, value: u8)
        requires
            old(self).wf(),
        ensures
            final(self).wf(),
            inst_set_prm_rel(*old(self), *final(self), prm_type, value),
    {
        match self {
            Inst::Va(i) => i.set_prm(prm_type, value),
            Inst::Sgf(i) => i.set_prm(prm_type, value),
        }
    }

    pub fn change_inst(&mut self, inst_number: usize, vol: u8, pan: u8, exp: u8)
        requires
            old(self).wf(),
        ensures
            final(self).wf(),
            inst_change_inst_rel(*old(self), *final(self), inst_number as int, vol, pan, exp),
    {
        match self {
            Inst::Va(i) => i.change_inst(inst_number, vol, pan, exp),
            Inst::Sgf(i) => i.change_inst(inst_number, vol, pan, exp),
        }
    }

    pub fn process(&mut self, abuf_l: &mut AudioFrame, abuf_r: &mut AudioFrame,
        in_number_frames: usize)
        requires
            old(self).wf(),
            old(abuf_l).wf(),
            old(abuf_r).wf(),
            old(abuf_l).sample_number == in_number_frames,
            old(abuf_r).sample_number == in_number_frames,
            (in_number_frames as int) % (AUDIO_FRAME_PER_CONTROL as int) == 0,
            in_number_frames <= MAX_BUFFER_SIZE,
        ensures
            final(self).wf(),
            final(abuf_l).wf(),
            final(abuf_r).wf(),
            final(abuf_l).capacity() == old(abuf_l).capacity(),
            final(abuf_r).capacity() == old(abuf_r).capacity(),
            final(abuf_l).sample_number == old(abuf_l).sample_number,
            final(abuf_r).sample_number == old(abuf_r).sample_number,
            inst_processed_rel(*old(self), *final(self), in_number_frames as int),
    {
        match self {
            Inst::Va(i) => i.process(abuf_l, abuf_r, in_number_frames),
            Inst::Sgf(i) => i.process(abuf_l, abuf_r, in_number_frames),
        }
    }

    /// How many voices are sounding.
    pub fn voice_count(&self) -> (r: usize)
        ensures
            self is Va ==> r == self->Va_0.vcevec@.len(),
            self is Sgf ==> r == (if self->Sgf_0.vce is Some { 1int } else { 0int }),
    {
        match self {
            Inst::Va(i) => i.voice_count(),
            Inst::Sgf(i) => if i.has_voice() { 1 } else { 0 },
        }
    }
}

} // verus!
