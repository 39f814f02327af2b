//
//  msgf_lfo.rs
//  Musical Sound Generator Framework
//      LFO Class
//
//  Low-frequency modulator with triangle, saw, square and sine shapes,
//  a fade-in gate and a direction policy.  One value is produced per
//  control sample; phase runs 0..1 in Q15.
//
use vstd::prelude::*;

use crate::{AUDIO_FRAME_PER_CONTROL, SAMPLING_FREQ};
use crate::msgf_cfrm::{CtrlFrame, CTRL_LIMIT};
use crate::msgf_fp::{q15, q15_div, mul64, lemma_tdiv_scale_le, tdiv};

verus! {

/// The tick counter saturates here; fades are long over by then.
pub const DAC_COUNTER_CAP: u64 = 0x4000_0000_0000_0000;

#[derive(PartialEq, Eq, Structural, Clone, Copy, Debug)]
pub enum LfoDirection {
    LfoBoth,
    LfoUpper,
    LfoLower,
}

#[derive(PartialEq, Eq, Structural, Clone, Copy, Debug)]
pub enum LfoWave {
    Tri,
    Saw,
    Squ,
    Sin,
}

#[derive(PartialEq, Eq, Structural, Clone, Copy)]
pub struct LfoParameter {
    pub freq: u32,               //  [centihertz]
    pub wave: LfoWave,
    pub direction: LfoDirection,
    pub fadein_time: u64,        //  control samples
    pub delay_time: u64,         //  control samples
}

pub open spec fn lfo_prm_wf(p: LfoParameter) -> bool {
    &&& p.freq <= 25600
    &&& p.fadein_time <= 0x1_0000_0000
    &&& p.delay_time <= 0x1_0000_0000
}

/// Shape coefficients (x1, x2 Q15 phase breaks; y Q15 gain; z Q15 cubic
/// correction) for each wave; the square's gain is a saturating ramp.
pub open spec fn wave_coef_spec(wv: LfoWave) -> (int, int, int, int) {
    match wv {
        LfoWave::Tri => (16384, 49152, 131072, 0),
        LfoWave::Saw => (0, 65536, 65536, 0),
        LfoWave::Squ => (16384, 49152, 3276800000, 0),
        LfoWave::Sin => (16384, 49152, 205887, 4833),
    }
}

/// Q15 phase advance per control sample at a frequency in centihertz.
pub open spec fn calc_freq_spec(freq: int) -> int {
    (freq * 4194304) / 4410000
}

/// The raw shape value at a phase: a fold of the phase ramp scaled by y
/// with a cubic correction, clamped to one.
pub open spec fn lfo_raw_spec(phase: int, x1: int, x2: int, y: int, z: int) -> int {
    let v1 = if phase < x1 - phase { x1 - phase } else { phase };
    let v2 = if v1 > x2 - phase { x2 - phase } else { v1 };
    let v3 = v2 - 16384;
    let v4 = q15(v3 * y);
    let v5 = v4 - q15(q15(q15(v4 * v4) * v4) * z);
    if v5 > 32768 {
        32768
    } else if v5 < -32768 {
        -32768
    } else {
        v5
    }
}

/// The fade gate at tick c: zero through the fade-in, a ramp through the
/// delay, then one.
pub open spec fn lfo_level_spec(c: int, fadein: int, delay: int) -> int {
    if c < fadein {
        0
    } else if c < fadein + delay {
        ((c - fadein) * 32768) / delay
    } else {
        32768
    }
}

pub struct Lfo {
    pub fadein_time: u64,
    pub delay_time: u64,
    pub next_phase: i32,   //  Q15, 0..1
    pub delta_phase: i32,  //  Q15 per control sample
    pub direction: LfoDirection,
    pub x1: i32,
    pub x2: i32,
    pub y: i64,
    pub z: i32,
    pub dac_counter: u64,
}

/// The value one control sample emits, from the state before the step.
pub open spec fn lfo_out_spec(l: Lfo) -> int {
    let vc = lfo_raw_spec(l.next_phase as int, l.x1 as int, l.x2 as int, l.y as int, l.z as int);
    let lvl = lfo_level_spec(l.dac_counter as int, l.fadein_time as int, l.delay_time as int);
    match l.direction {
        LfoDirection::LfoBoth => q15(vc * lvl),
        LfoDirection::LfoUpper => q15(vc * (lvl / 2)) + (lvl / 2) / 2,
        LfoDirection::LfoLower => q15(vc * (lvl / 2)) - (lvl / 2) / 2,
    }
}

/// One control step: advance and wrap the phase, tick the counter.
pub open spec fn lfo_step_spec(l: Lfo) -> Lfo {
    let p = l.next_phase + l.delta_phase;
    let np = if p >= 32768 { p - 32768 } else { p };
    let c = if l.dac_counter < DAC_COUNTER_CAP { l.dac_counter + 1 } else { l.dac_counter as int };
    Lfo { next_phase: np as i32, dac_counter: c as u64, ..l }
}

/// The modulator state after i control samples.
pub open spec fn lfo_iter_spec(l: Lfo, i: int) -> Lfo
    decreases i,
{
    if i <= 0 {
        l
    } else {
        lfo_step_spec(lfo_iter_spec(l, i - 1))
    }
}

impl Lfo {
    pub open spec fn coef_wf(self) -> bool {
        ||| (self.x1 as int, self.x2 as int, self.y as int, self.z as int) == wave_coef_spec(LfoWave::Tri)
        ||| (self.x1 as int, self.x2 as int, self.y as int, self.z as int) == wave_coef_spec(LfoWave::Saw)
        ||| (self.x1 as int, self.x2 as int, self.y as int, self.z as int) == wave_coef_spec(LfoWave::Squ)
        ||| (self.x1 as int, self.x2 as int, self.y as int, self.z as int) == wave_coef_spec(LfoWave::Sin)
    }

    pub open spec fn wf(self) -> bool {
        &&& self.coef_wf()
        &&& 0 <= self.next_phase < 32768
        &&& 0 <= self.delta_phase < 32768
        &&& self.fadein_time <= 0x1_0000_0000
        &&& self.delay_time <= 0x1_0000_0000
        &&& self.dac_counter <= DAC_COUNTER_CAP
    }

    pub fn new(ref_prms: &LfoParameter) -> (r: Lfo)
        requires
            lfo_prm_wf(*ref_prms),
        ensures
            r.wf(),
            (r.x1 as int, r.x2 as int, r.y as int, r.z as int) == wave_coef_spec(ref_prms.wave),
            r.direction == ref_prms.direction,
            r.fadein_time == ref_prms.fadein_time,
            r.delay_time == ref_prms.delay_time,
            r.next_phase == 0,
            r.delta_phase == calc_freq_spec(ref_prms.freq as int),
            r.dac_counter == 0,
    {
        let (x1, x2, y, z) = Lfo::calc_wave(ref_prms.wave);
        Lfo {
            fadein_time: ref_prms.fadein_time,
            delay_time: ref_prms.delay_time,
            next_phase: 0,
            delta_phase: Lfo::calc_freq(ref_prms.freq),
            direction: ref_prms.direction,
            x1,
            x2,
            y,
            z,
            dac_counter: 0,
        }
    }

    /// The shape coefficients of a wave.
    fn calc_wave(wv: LfoWave) -> (r: (i32, i32, i64, i32))
        ensures
            (r.0 as int, r.1 as int, r.2 as int, r.3 as int) == wave_coef_spec(wv),
    {
        match wv {
            LfoWave::Tri => (16384, 49152, 131072, 0),
            LfoWave::Saw => (0, 65536, 65536, 0),
            LfoWave::Squ => (16384, 49152, 3276800000, 0),
            LfoWave::Sin => (16384, 49152, 205887, 4833),
        }
    }

    /// Executable form of calc_freq_spec.
    fn calc_freq(freq: u32) -> (r: i32)
        requires
            freq <= 25600,
        ensures
            r == calc_freq_spec(freq as int),
            0 <= r < 32768,
    {
        (((freq as u64) * 4194304) / 4410000) as i32
    }

    /// Choose shape and direction from a control byte: bits 5..6 pick the
    /// wave, bits 4..5 the direction.
    pub fn set_wave(&mut self, value: u8)
        requires
            old(self).wf(),
        ensures
            final(self).wf(),
            (final(self).x1 as int, final(self).x2 as int, final(self).y as int, final(self).z as int)
                == wave_coef_spec(wave_of_byte(value)),
            final(self).direction == direction_of_byte(value),
            *final(self) == (lfo_after_prm_spec(*old(self), 1, value)),
    {
        let d: u8 = value & 0x30;
        let dir: LfoDirection = if d == 0x00 {
            LfoDirection::LfoBoth
        } else if d == 0x10 {
            LfoDirection::LfoUpper
        } else if d == 0x20 {
            LfoDirection::LfoLower
        } else {
            LfoDirection::LfoBoth
        };
        let m: u8 = value & 0x60;
        let wv: LfoWave = if m == 0x00 {
            LfoWave::Tri
        } else if m == 0x20 {
            LfoWave::Saw
        } else if m == 0x40 {
            LfoWave::Squ
        } else {
            LfoWave::Sin
        };
        let coef = Lfo::calc_wave(wv);
        self.direction = dir;
        self.x1 = coef.0;
        self.x2 = coef.1;
        self.y = coef.2;
        self.z = coef.3;
    }

    /// Set the rate from a control byte: Hz = byte / 10.
    pub fn set_freq(&mut self, value: u8)
        requires
            old(self).wf(),
        ensures
            final(self).wf(),
            final(self).delta_phase == calc_freq_spec((value as int) * 10),
            *final(self) == (lfo_after_prm_spec(*old(self), 0, value)),
    {
        self.delta_phase = Lfo::calc_freq((value as u32) * 10);
    }

    /// Restart the fade gate.
    pub fn start(&mut self)
        requires
            old(self).wf(),
        ensures
            final(self).wf(),
            *final(self) == (Lfo { dac_counter: 0, ..*old(self) }),
    {
        self.dac_counter = 0;
    }

    /// Render one block of n control samples: sample i carries the gated
    /// shape value at the state after i steps, and the phase and tick
    /// counter take those steps.
    pub fn process(&mut self, abuf: &mut CtrlFrame)
        requires
            old(self).wf(),
            old(abuf).wf(),
        ensures
            final(self).wf(),
            *final(self) == (lfo_iter_spec(*old(self), old(abuf).sample_number as int)),
            final(abuf).wf(),
            final(abuf).sample_number == old(abuf).sample_number,
            forall|i: int| 0 <= i < old(abuf).sample_number
                ==> final(abuf).samples()[i] == lfo_out_spec(lfo_iter_spec(*old(self), i)),
    {
        let ghost l0: Lfo = *old(self);
        let mut i: usize = 0;
        while i < abuf.sample_number
            invariant
                i <= abuf.sample_number,
                self.wf(),
                abuf.wf(),
                abuf.sample_number == old(abuf).sample_number,
                *self == (lfo_iter_spec(l0, i as int)),
                forall|k: int| 0 <= k < i
                    ==> abuf.samples()[k] == lfo_out_spec(lfo_iter_spec(l0, k)),
            decreases abuf.sample_number - i,
        {
            let ghost prev: Lfo = *self;
            let value = self.out_value();
            abuf.set_cbuf(i, value);
            let p = self.next_phase + self.delta_phase;
            self.next_phase = if p >= 32768 { p - 32768 } else { p };
            if self.dac_counter < DAC_COUNTER_CAP {
                self.dac_counter = self.dac_counter + 1;
            }
            proof {
                assert(*self == (lfo_step_spec(prev)));
                assert(lfo_iter_spec(l0, i + 1) == lfo_step_spec(lfo_iter_spec(l0, i as int)));
            }
            i += 1;
        }
    }

    /// The gated, direction-shaped output at the current state.
    fn out_value(&self) -> (r: i32)
        requires
            self.wf(),
        ensures
            r == lfo_out_spec(*self),
            -CTRL_LIMIT <= r <= CTRL_LIMIT,
    {
        let vc = self.raw_value();
        let lvl = self.level_value();
        proof {
            lemma_tdiv_scale_le(vc as int, lvl as int, 32768);
            lemma_tdiv_scale_le(vc as int, (lvl / 2) as int, 32768);
        }
        match self.direction {
            LfoDirection::LfoBoth => q15_div(mul64(vc as i64, lvl as i64)) as i32,
            LfoDirection::LfoUpper => {
                let half = lvl / 2;
                (q15_div(mul64(vc as i64, half as i64)) as i32) + half / 2
            }
            LfoDirection::LfoLower => {
                let half = lvl / 2;
                (q15_div(mul64(vc as i64, half as i64)) as i32) - half / 2
            }
        }
    }

    /// The raw shape value at the current phase, clamped to one.
    fn raw_value(&self) -> (r: i32)
        requires
            self.wf(),
        ensures
            r as int == lfo_raw_spec(self.next_phase as int, self.x1 as int, self.x2 as int,
                self.y as int, self.z as int),
            -32768 <= r <= 32768,
    {
        let phase = self.next_phase as i64;
        let mut value: i64 = phase;
        if value < self.x1 as i64 - phase {
            value = self.x1 as i64 - phase;
        }
        if value > self.x2 as i64 - phase {
            value = self.x2 as i64 - phase;
        }
        let v3 = value - 16384;
        let v5: i64;
        if self.z == 0 {
            proof {
                assert(-65536 * 3276800000 <= v3 * self.y <= 65536 * 3276800000) by (nonlinear_arith)
                    requires
                        -65536 <= v3 <= 65536,
                        -3276800000 <= self.y <= 3276800000,
                {}
            }
            let v4 = q15_div(v3 * self.y);
            proof {
                assert(q15(q15(q15(v4 * v4) * v4) * 0) == 0) by {
                    assert(q15(v4 * v4) * v4 * 0 == 0) by (nonlinear_arith) {}
                    assert(q15(q15(v4 * v4) * v4) * 0 == 0) by (nonlinear_arith) {}
                }
            }
            v5 = v4;
        } else {
            let v4 = q15_div(mul64(v3, self.y as i64));
            proof {
                assert(-(65536 * 205887) <= v3 * self.y <= 65536 * 205887) by (nonlinear_arith)
                    requires
                        -65536 <= v3 <= 65536,
                        self.y == 205887,
                {}
                crate::msgf_fp::lemma_tdiv_bound(v3 * self.y, 32768, (65536 * 205887) as int);
                assert(((65536 * 205887) as int) / 32768 == 411774);
                assert(-411774 <= v4 <= 411774);
            }
            let sq = q15_div(mul64(v4, v4));
            proof {
                assert(0 <= v4 * v4 <= 411774 * 411774) by (nonlinear_arith)
                    requires
                        -411774 <= v4 <= 411774,
                {}
                crate::msgf_fp::lemma_tdiv_bound(v4 * v4, 32768, (411774 * 411774) as int);
                assert(((411774 * 411774) as int) / 32768 == 5174494);
                assert(0 <= sq <= 5174494);
            }
            let cu = q15_div(mul64(sq, v4));
            proof {
                assert(-(5174494 * 411774) <= sq * v4 <= 5174494 * 411774) by (nonlinear_arith)
                    requires
                        0 <= sq <= 5174494,
                        -411774 <= v4 <= 411774,
                {}
                crate::msgf_fp::lemma_tdiv_bound(sq * v4, 32768, (5174494 * 411774) as int);
                assert(((5174494 * 411774) as int) / 32768 == 65024477);
                assert(-65024477 <= cu <= 65024477);
                assert(-(65024477 * 4833) <= cu * self.z <= 65024477 * 4833) by (nonlinear_arith)
                    requires
                        -65024477 <= cu <= 65024477,
                        self.z == 4833,
                {}
            }
            let zz = q15_div(mul64(cu, self.z as i64));
            v5 = v4 - zz;
        }
        if v5 > 32768 {
            32768
        } else if v5 < -32768 {
            -32768
        } else {
            v5 as i32
        }
    }

    /// The fade gate at the current tick.
    fn level_value(&self) -> (r: i32)
        requires
            self.wf(),
        ensures
            r as int == lfo_level_spec(self.dac_counter as int, self.fadein_time as int,
                self.delay_time as int),
            0 <= r <= 32768,
    {
        if self.dac_counter < self.fadein_time {
            0
        } else if self.dac_counter < self.fadein_time + self.delay_time {
            let tm = self.dac_counter - self.fadein_time;
            proof {
                assert(tm * 32768 < self.delay_time * 32768) by (nonlinear_arith)
                    requires
                        0 <= tm < self.delay_time,
                {}
                vstd::arithmetic::div_mod::lemma_div_is_ordered(
                    (tm * 32768) as int, (self.delay_time * 32768) as int, self.delay_time as int);
                vstd::arithmetic::div_mod::lemma_div_multiples_vanish(
                    32768, self.delay_time as int);
                assert(self.delay_time * 32768 == (self.delay_time as int) * 32768) by (nonlinear_arith) {}
                assert((self.delay_time as int) * 32768 == 32768 * (self.delay_time as int)) by (nonlinear_arith) {}
                vstd::arithmetic::div_mod::lemma_div_pos_is_pos((tm * 32768) as int, self.delay_time as int);
            }
            ((tm * 32768) / self.delay_time) as i32
        } else {
            32768
        }
    }
}

/// The modulator after a per-voice parameter byte: type 0 retunes the
/// rate, type 1 reshapes wave and direction, anything else is ignored.
pub open spec fn lfo_after_prm_spec(l: Lfo, prm_type: u8, value: u8) -> Lfo {
    if prm_type == 0 {
        Lfo { delta_phase: calc_freq_spec((value as int) * 10) as i32, ..l }
    } else if prm_type == 1 {
        Lfo {
            direction: direction_of_byte(value),
            x1: wave_coef_spec(wave_of_byte(value)).0 as i32,
            x2: wave_coef_spec(wave_of_byte(value)).1 as i32,
            y: wave_coef_spec(wave_of_byte(value)).2 as i64,
            z: wave_coef_spec(wave_of_byte(value)).3 as i32,
            ..l
        }
    } else {
        l
    }
}

/// Re-applying the same parameter byte changes nothing: the modulator
/// reached by one application is a fixed point of the next.
pub proof fn lemma_lfo_prm_idempotent(l: Lfo, prm_type: u8, value: u8)
    ensures
        lfo_after_prm_spec(lfo_after_prm_spec(l, prm_type, value), prm_type, value)
            == lfo_after_prm_spec(l, prm_type, value),
{
}

/// The wave a control byte selects.
pub open spec fn wave_of_byte(value: u8) -> LfoWave {
    if value & 0x60 == 0x00 {
        LfoWave::Tri
    } else if value & 0x60 == 0x20 {
        LfoWave::Saw
    } else if value & 0x60 == 0x40 {
        LfoWave::Squ
    } else {
        LfoWave::Sin
    }
}

/// The direction a control byte selects.
pub open spec fn direction_of_byte(value: u8) -> LfoDirection {
    if value & 0x30 == 0x00 {
        LfoDirection::LfoBoth
    } else if value & 0x30 == 0x10 {
        LfoDirection::LfoUpper
    } else if value & 0x30 == 0x20 {
        LfoDirection::LfoLower
    } else {
        LfoDirection::LfoBoth
    }
}

} // verus!
