//
//  msgf_part.rs
//  Musical Sound Generator Framework
//      Part Class
//
//  One MIDI channel: the cached seven-bit controllers, the fourteen-bit
//  bend, the program, and the instrument they drive.
//
use vstd::prelude::*;

use crate::{AUDIO_FRAME_PER_CONTROL, MAX_BUFFER_SIZE};
use crate::msgf_afrm::AudioFrame;
use crate::msgf_inst::{Inst, get_inst, va_tone_of_program, inst_modulation_rel, inst_volume_rel,
    inst_pan_rel, inst_expression_rel, inst_pitch_rel, inst_all_sound_off_rel, inst_set_prm_rel,
    inst_note_on_rel, inst_note_off_rel, inst_processed_rel};
use crate::va_inst::{InstVa, pitch_cents_spec};
use crate::sgf_inst::InstSgf;

verus! {


/// The cached controller bytes are untouched, apart from the one the
/// controller number names (none for an out-of-map number).
pub open spec fn part_caches_same_except(pre: Part, post: Part, c: int) -> bool {
    &&& (c != 0 ==> post.cc0_msb == pre.cc0_msb)
    &&& (c != 1 ==> post.cc1_modulation_wheel == pre.cc1_modulation_wheel)
    &&& (c != 5 ==> post.cc5_portamento_time == pre.cc5_portamento_time)
    &&& (c != 7 ==> post.cc7_volume == pre.cc7_volume)
    &&& (c != 10 ==> post.cc10_pan == pre.cc10_pan)
    &&& (c != 11 ==> post.cc11_expression == pre.cc11_expression)
    &&& (c != 12 ==> post.cc12_note_shift == pre.cc12_note_shift)
    &&& (c != 13 ==> post.cc13_tune == pre.cc13_tune)
    &&& (c != 32 ==> post.cc32_lsb == pre.cc32_lsb)
    &&& (c != 64 ==> post.cc64_sustain == pre.cc64_sustain)
    &&& (c != 65 ==> post.cc65_portamento == pre.cc65_portamento)
    &&& (c != 66 ==> post.cc66_sostenuto == pre.cc66_sostenuto)
    &&& post.program_number == pre.program_number
    &&& post.pitch_bend_value == pre.pitch_bend_value
    &&& forall|k: int| 0 <= k < 16 && k != c - 16
        ==> post.cc16_31_change_vprm@[k] == pre.cc16_31_change_vprm@[k]
}

/// Which cache byte a control change writes.
pub open spec fn part_cc_cache_spec(pre: Part, post: Part, c: u8, v: u8) -> bool {
    &&& part_caches_same_except(pre, post, c as int)
    &&& (c == 0 ==> post.cc0_msb == v)
    &&& (c == 1 ==> post.cc1_modulation_wheel == v)
    &&& (c == 5 ==> post.cc5_portamento_time == v)
    &&& (c == 7 ==> post.cc7_volume == v)
    &&& (c == 10 ==> post.cc10_pan == v)
    &&& (c == 11 ==> post.cc11_expression == v)
    &&& (c == 12 ==> post.cc12_note_shift == v)
    &&& (c == 13 ==> post.cc13_tune == v)
    &&& (c == 32 ==> post.cc32_lsb == v)
    &&& (c == 64 ==> post.cc64_sustain == v)
    &&& (c == 65 ==> post.cc65_portamento == v)
    &&& (c == 66 ==> post.cc66_sostenuto == v)
    &&& (16 <= c <= 31 ==> post.cc16_31_change_vprm@[c - 16] == v)
}

/// What a control change does to the owned instrument, per the
/// controller map; controllers that only cache leave it alone, and an
/// out-of-map controller leaves the whole part untouched.
pub open spec fn part_cc_inst_rel(pre: Part, post: Part, c: u8, v: u8) -> bool {
    &&& (c == 1 ==> inst_modulation_rel(pre.inst, post.inst, v))
    &&& (c == 7 ==> inst_volume_rel(pre.inst, post.inst, v))
    &&& (c == 10 ==> inst_pan_rel(pre.inst, post.inst, v))
    &&& (c == 11 ==> inst_expression_rel(pre.inst, post.inst, v))
    &&& (c == 12 ==> inst_pitch_rel(pre.inst, post.inst, pre.pitch_bend_value, v, pre.cc13_tune))
    &&& (c == 13 ==> inst_pitch_rel(pre.inst, post.inst, pre.pitch_bend_value, pre.cc12_note_shift, v))
    &&& (16 <= c <= 31 ==> inst_set_prm_rel(pre.inst, post.inst, (c - 16) as u8, v))
    &&& (c == 120 && v == 0 ==> inst_all_sound_off_rel(pre.inst, post.inst))
    &&& (c == 120 && v != 0 ==> post.inst == pre.inst)
    &&& (c == 0 || c == 5 || c == 32 || c == 64 || c == 65 || c == 66 ==> post.inst == pre.inst)
    &&& (!(c == 0 || c == 1 || c == 5 || c == 7 || c == 10 || c == 11 || c == 12 || c == 13
            || (16 <= c <= 31) || c == 32 || c == 64 || c == 65 || c == 66 || c == 120)
        ==> post == pre)
}

/// One control change, whole: the named cache byte and the mapped
/// instrument effect.
pub open spec fn part_control_change_rel(pre: Part, post: Part, c: u8, v: u8) -> bool {
    &&& part_cc_cache_spec(pre, post, c, v)
    &&& part_cc_inst_rel(pre, post, c, v)
}

/// A program change: the program byte is cached, every other cache
/// stays, and the preset provider's instrument for the program is
/// rebuilt fresh, with the cached pitch state reapplied to it.
pub open spec fn part_program_change_rel(pre: Part, post: Part, dt2: u8) -> bool {
    &&& post.program_number == dt2
    &&& part_caches_same_except((Part { program_number: pre.program_number, ..post }), pre, -1)
    &&& ({
        let cents = pitch_cents_spec(pre.pitch_bend_value as int, pre.cc12_note_shift as int,
            pre.cc13_tune as int);
        if dt2 < 8 || dt2 == 16 || dt2 == 17 {
            post.inst is Va
                && crate::va_inst::inst_va_fresh(
                    (InstVa { pit: 0, ..post.inst->Va_0 }),
                    va_tone_of_program(dt2 as int),
                    pre.cc7_volume as int, pre.cc10_pan as int, pre.cc11_expression as int)
                && post.inst->Va_0.pit == cents
        } else {
            post.inst is Sgf
                && crate::sgf_inst::inst_sgf_fresh(
                    (InstSgf { pit: 0, ..post.inst->Sgf_0 }),
                    pre.cc7_volume as int, pre.cc10_pan as int, pre.cc11_expression as int)
                && post.inst->Sgf_0.pit == cents
        }
    })
}

/// A pitch bend: the bend is cached and every held voice retuned with
/// the cached note-shift and tune controllers.
pub open spec fn part_pitch_bend_rel(pre: Part, post: Part, bend: i16) -> bool {
    &&& post.pitch_bend_value == bend
    &&& part_caches_same_except((Part { pitch_bend_value: pre.pitch_bend_value, ..post }), pre, -1)
    &&& inst_pitch_rel(pre.inst, post.inst, bend, pre.cc12_note_shift, pre.cc13_tune)
}

/// One rendered block leaves the caches alone and steps the instrument.
pub open spec fn part_processed_rel(pre: Part, post: Part, n: int) -> bool {
    &&& part_caches_same_except(pre, post, -1)
    &&& inst_processed_rel(pre.inst, post.inst, n)
}

/// A part as the constructor leaves it: the default controller caches
/// of the data model, and the default program's fresh instrument.
pub open spec fn part_fresh_spec(p: Part) -> bool {
    &&& p.cc0_msb == 0
    &&& p.cc1_modulation_wheel == 0
    &&& p.cc5_portamento_time == 0
    &&& p.cc7_volume == 100
    &&& p.cc10_pan == 64
    &&& p.cc11_expression == 127
    &&& p.cc12_note_shift == 64
    &&& p.cc13_tune == 64
    &&& p.cc32_lsb == 0
    &&& p.cc64_sustain == 0
    &&& p.cc65_portamento == 0
    &&& p.cc66_sostenuto == 0
    &&& p.program_number == 0
    &&& p.pitch_bend_value == 0
    &&& forall|k: int| 0 <= k < 16 ==> p.cc16_31_change_vprm@[k] == 0u8
    &&& p.inst is Va
    &&& crate::va_inst::inst_va_fresh(p.inst->Va_0, 0, 100, 64, 127)
}

pub struct Part {
    pub cc0_msb: u8,
    pub cc1_modulation_wheel: u8,
    pub cc5_portamento_time: u8,
    pub cc7_volume: u8,
    pub cc10_pan: u8,
    pub cc11_expression: u8,
    pub cc12_note_shift: u8,
    pub cc13_tune: u8,
    pub cc32_lsb: u8,
    pub cc64_sustain: u8,
    pub cc65_portamento: u8,
    pub cc66_sostenuto: u8,
    pub program_number: u8,
    pub pitch_bend_value: i16,
    pub cc16_31_change_vprm: [u8; 16],
    pub inst: Inst,
}

impl Part {
    pub open spec fn wf(self) -> bool {
        &&& self.inst.wf()
        &&& self.cc12_note_shift < 128
        &&& self.cc13_tune < 128
        &&& -8192 <= self.pitch_bend_value <= 8191
    }

    pub fn new() -> (r: Part)
        ensures
            r.wf(),
            part_fresh_spec(r),
    {
        Part {
            cc0_msb: 0,
            cc1_modulation_wheel: 0,
            cc5_portamento_time: 0,
            cc7_volume: 100,
            cc10_pan: 64,
            cc11_expression: 127,
            cc12_note_shift: 64,
            cc13_tune: 64,
            cc32_lsb: 0,
            cc64_sustain: 0,
            cc65_portamento: 0,
            cc66_sostenuto: 0,
            program_number: 0,
            pitch_bend_value: 0,
            cc16_31_change_vprm: [0, 0, 0, 0, 0, 0, 0, 0, 0, 0, 0, 0, 0, 0, 0, 0],
            inst: get_inst(0, 100, 64, 127),
        }
    }

    pub fn note_off(&mut self, dt2: u8, dt3: u8)
        requires
            old(self).wf(),
        ensures
            final(self).wf(),
            part_caches_same_except(*old(self), *final(self), -1),
            inst_note_off_rel(old(self).inst, final(self).inst, dt2),
    {
        self.inst.note_off(dt2, dt3);
    }

    pub fn note_on(&mut self, dt2: u8, dt3: u8)
        requires
            old(self).wf(),
        ensures
            final(self).wf(),
            part_caches_same_except(*old(self), *final(self), -1),
            inst_note_on_rel(old(self).inst, final(self).inst, dt2, dt3),
    {
        self.inst.note_on(dt2, dt3);
    }

    /// Per-note aftertouch is recognised but not interpreted.
    pub fn per_note_after(&mut self, _dt2: u8, _dt3: u8)
        requires
            old(self).wf(),
        ensures
            *final(self) == *old(self),
    {
    }

    /// Route a control change: cache the value and forward it to the
    /// instrument per the controller map.
    pub fn control_change(&mut self, controller: u8, value: u8)
        requires
            old(self).wf(),
            value < 128,
        ensures
            final(self).wf(),
            part_control_change_rel(*old(self), *final(self), controller, value),
    {
        match controller {
            0 => self.cc0_msb = value,
            1 => {
                self.cc1_modulation_wheel = value;
                self.inst.modulation(value);
            }
            5 => self.cc5_portamento_time = value,
            7 => {
                self.cc7_volume = value;
                self.inst.volume(value);
            }
            10 => {
                self.cc10_pan = value;
                self.inst.pan(value);
            }
            11 => {
                self.cc11_expression = value;
                self.inst.expression(value);
            }
            12 => {
                self.cc12_note_shift = value;
                let pb = self.pitch_bend_value;
                let tn = self.cc13_tune;
                self.inst.pitch(pb, value, tn);
            }
            13 => {
                self.cc13_tune = value;
                let pb = self.pitch_bend_value;
                let ns = self.cc12_note_shift;
                self.inst.pitch(pb, ns, value);
            }
            32 => self.cc32_lsb = value,
            64 => {
                self.cc64_sustain = value;
                self.inst.sustain(value);
            }
            65 => self.cc65_portamento = value,
            66 => self.cc66_sostenuto = value,
            120 => {
                if value == 0 {
                    self.inst.all_sound_off();
                }
            }
            16..=31 => {
                let vprm_num: u8 = controller - 16;
                self.cc16_31_change_vprm[vprm_num as usize] = value;
                self.inst.set_prm(vprm_num, value);
            }
            _ => {}
        }
    }

    /// Switch program: the preset provider picks the instrument, the
    /// cached pitch state is reapplied.
    pub fn program_change(&mut self, dt2: u8)
        requires
            old(self).wf(),
        ensures
            final(self).wf(),
            part_program_change_rel(*old(self), *final(self), dt2),
    {
        self.program_number = dt2;
        let vol = self.cc7_volume;
        let pan = self.cc10_pan;
        let exp = self.cc11_expression;
        let pb = self.pitch_bend_value;
        let ns = self.cc12_note_shift;
        let tn = self.cc13_tune;
        self.inst = get_inst(dt2 as usize, vol, pan, exp);
        self.inst.pitch(pb, ns, tn);
    }

    /// Cache a bend and retune every held voice.
    pub fn pitch_bend(&mut self, bend: i16)
        requires
            old(self).wf(),
            -8192 <= bend <= 8191,
        ensures
            final(self).wf(),
            part_pitch_bend_rel(*old(self), *final(self), bend),
    {
        self.pitch_bend_value = bend;
        let ns = self.cc12_note_shift;
        let tn = self.cc13_tune;
        self.inst.pitch(bend, ns, tn);
    }

    /// Render one block: clear the dry pair, let the instrument fill
    /// it, and copy the same signal onto the effect-send pair.
    pub fn process(&mut self, abuf_l: &mut AudioFrame, abuf_r: &mut AudioFrame,
        abuf_eff_l: &mut AudioFrame, abuf_eff_r: &mut AudioFrame, in_number_frames: usize)
        requires
            old(self).wf(),
            old(abuf_l).wf(),
            old(abuf_r).wf(),
            old(abuf_eff_l).wf(),
            old(abuf_eff_r).wf(),
            old(abuf_l).sample_number == in_number_frames,
            old(abuf_r).sample_number == in_number_frames,
            old(abuf_eff_l).sample_number == in_number_frames,
            old(abuf_eff_r).sample_number == in_number_frames,
            old(abuf_eff_l).capacity() >= in_number_frames,
            old(abuf_eff_r).capacity() >= in_number_frames,
            (in_number_frames as int) % (AUDIO_FRAME_PER_CONTROL as int) == 0,
            in_number_frames <= MAX_BUFFER_SIZE,
        ensures
            final(self).wf(),
            final(abuf_l).wf(),
            final(abuf_r).wf(),
            final(abuf_eff_l).wf(),
            final(abuf_eff_r).wf(),
            final(abuf_l).capacity() == old(abuf_l).capacity(),
            final(abuf_r).capacity() == old(abuf_r).capacity(),
            final(abuf_eff_l).capacity() == old(abuf_eff_l).capacity(),
            final(abuf_eff_r).capacity() == old(abuf_eff_r).capacity(),
            final(abuf_l).sample_number == old(abuf_l).sample_number,
            final(abuf_r).sample_number == old(abuf_r).sample_number,
            final(abuf_eff_l).sample_number == old(abuf_eff_l).sample_number,
            final(abuf_eff_r).sample_number == old(abuf_eff_r).sample_number,
            part_processed_rel(*old(self), *final(self), in_number_frames as int),
    {
        abuf_l.clr_abuf();
        abuf_r.clr_abuf();
        self.inst.process(abuf_l, abuf_r, in_number_frames);
        abuf_eff_l.clr_abuf();
        abuf_eff_r.clr_abuf();
        abuf_eff_l.mul_and_mix(abuf_l, 32768);
        abuf_eff_r.mul_and_mix(abuf_r, 32768);
    }
}

} // verus!
