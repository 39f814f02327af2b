//
//  msgf_aeg.rs
//  Musical Sound Generator Framework
//      Aeg Class
//
//  Four-phase amplitude envelope with release reservation during decay.
//  Levels and rates are Q15.  Each control sample the interpolation
//  value approaches one along an exponential curve with a linear tail,
//  and the level written out is src + (tgt - src) * interpolation.
//
use vstd::prelude::*;

use crate::msgf_cfrm::{CtrlFrame, CTRL_LIMIT};
use crate::msgf_fp::{q15, q15_div, mul64, lemma_tdiv_scale_le};

verus! {

/// Interpolation values above this take the linear tail (0.98 in Q15).
pub const INTERP_KNEE: i32 = 32112;

/// The linear tail's step per control sample (0.001 in Q15).
pub const STEP_BEFORE_REACHED: i32 = 33;

/// Ceiling of the interpolation value (1.001 in Q15).
pub const INTERP_CEIL: i32 = 32801;

/// Envelope levels stay within these Q15 bounds.
pub const EG_VAL_MIN: i32 = -66;

pub const EG_VAL_MAX: i32 = 32834;

#[derive(PartialEq, Eq, Structural, Clone, Copy)]
pub struct AegParameter {
    pub attack_rate: i32,    //  Q15, 0..1
    pub decay_rate: i32,     //  Q15, 0..1; 32768 means no decay
    pub sustain_level: i32,  //  Q15, 0..1
    pub release_rate: i32,   //  Q15, 0..1
}

pub open spec fn aeg_prm_wf(p: AegParameter) -> bool {
    &&& 0 <= p.attack_rate <= 32768
    &&& 0 <= p.decay_rate <= 32768
    &&& 0 <= p.sustain_level <= 32768
    &&& 0 <= p.release_rate <= 32768
}

#[derive(PartialEq, Eq, Structural, Clone, Copy, Debug)]
pub enum EgState {
    NotYet,
    Attack,   //  A
    Decay,    //  D
    Sustain,  //  S
    Release,  //  R
    EgDone,
}

#[derive(PartialEq, Eq, Structural, Clone, Copy)]
pub struct Aeg {
    pub prms: AegParameter,
    pub state: EgState,
    pub tgt_value: i32,
    pub src_value: i32,
    pub crnt_value: i32,
    pub crnt_rate: i32,
    pub interpolate_value: i32,
    pub release_rsv: bool,
}

/// One control step of the interpolation value: exponential approach
/// below the knee, a fixed step capped at the ceiling above it.
pub open spec fn interp_next(s: int, rate: int) -> int {
    if s > INTERP_KNEE as int {
        if s + STEP_BEFORE_REACHED as int > INTERP_CEIL as int {
            INTERP_CEIL as int
        } else {
            s + STEP_BEFORE_REACHED as int
        }
    } else {
        s + q15((32768 - s) * rate)
    }
}

/// The level the envelope reaches at an interpolation value.
pub open spec fn eg_level(diff: int, s: int, src: int) -> int {
    q15(diff * s) + src
}

pub open spec fn move_to_attack_spec(a: Aeg) -> Aeg {
    Aeg {
        src_value: 0,
        tgt_value: 32768,
        crnt_rate: a.prms.attack_rate,
        state: EgState::Attack,
        interpolate_value: 0,
        ..a
    }
}

pub open spec fn move_to_egdone_spec(a: Aeg) -> Aeg {
    Aeg {
        src_value: 0,
        tgt_value: 0,
        crnt_rate: 0,
        state: EgState::EgDone,
        interpolate_value: 0,
        ..a
    }
}

pub open spec fn move_to_sustain_spec(a: Aeg, eg_crnt: int) -> Aeg {
    if a.prms.sustain_level == 0 {
        move_to_egdone_spec(a)
    } else {
        Aeg {
            src_value: eg_crnt as i32,
            tgt_value: a.prms.sustain_level,
            crnt_rate: 0,
            state: EgState::Sustain,
            interpolate_value: 0,
            ..a
        }
    }
}

pub open spec fn move_to_decay_spec(a: Aeg, eg_crnt: int) -> Aeg {
    if a.prms.decay_rate == 32768 {
        move_to_sustain_spec(a, eg_crnt)
    } else {
        Aeg {
            src_value: eg_crnt as i32,
            tgt_value: a.prms.sustain_level,
            crnt_rate: a.prms.decay_rate,
            state: EgState::Decay,
            interpolate_value: 0,
            ..a
        }
    }
}

pub open spec fn move_to_release_spec(a: Aeg) -> Aeg {
    if a.state == EgState::Decay && a.prms.release_rate < a.prms.decay_rate {
        Aeg { release_rsv: true, ..a }
    } else {
        Aeg {
            src_value: a.crnt_value,
            tgt_value: 0,
            crnt_rate: a.prms.release_rate,
            state: EgState::Release,
            interpolate_value: 0,
            ..a
        }
    }
}

/// One control sample of the envelope: advance the interpolation, take
/// any due transition, and store the level reached.  The level
/// difference tgt - src is taken fresh each control sample.
pub open spec fn aeg_step_spec(a: Aeg) -> Aeg {
    match a.state {
        EgState::Attack => {
            let diff = a.tgt_value - a.src_value;
            let s = interp_next(a.interpolate_value as int, a.crnt_rate as int);
            let crnt = eg_level(diff as int, s, a.src_value as int);
            let a1 = Aeg { interpolate_value: s as i32, ..a };
            let a2 = if diff > 0 && a.tgt_value as int <= crnt {
                move_to_decay_spec(a1, a1.tgt_value as int)
            } else {
                a1
            };
            Aeg { crnt_value: crnt as i32, ..a2 }
        }
        EgState::Decay => {
            let diff = a.tgt_value - a.src_value;
            let s = interp_next(a.interpolate_value as int, a.crnt_rate as int);
            let crnt = eg_level(diff as int, s, a.src_value as int);
            let a1 = Aeg { interpolate_value: s as i32, ..a };
            let a2 = if diff < 0 && a.tgt_value as int >= crnt {
                if a.release_rsv {
                    move_to_release_spec(Aeg { state: EgState::Sustain, ..a1 })
                } else {
                    move_to_sustain_spec(a1, a1.tgt_value as int)
                }
            } else {
                a1
            };
            Aeg { crnt_value: crnt as i32, ..a2 }
        }
        EgState::Release => {
            let diff = a.tgt_value - a.src_value;
            let s = interp_next(a.interpolate_value as int, a.crnt_rate as int);
            let crnt = eg_level(diff as int, s, a.src_value as int);
            let a1 = Aeg { interpolate_value: s as i32, ..a };
            let a2 = if diff < 0 && a.tgt_value as int >= crnt {
                move_to_egdone_spec(a1)
            } else {
                a1
            };
            Aeg { crnt_value: crnt as i32, ..a2 }
        }
        _ => Aeg { crnt_value: a.tgt_value, ..a },
    }
}

/// The envelope state after i control samples of a block.
pub open spec fn aeg_iter_spec(a: Aeg, i: int) -> Aeg
    decreases i,
{
    if i <= 0 {
        a
    } else {
        aeg_step_spec(aeg_iter_spec(a, i - 1))
    }
}

impl Aeg {
    pub open spec fn wf(self) -> bool {
        &&& aeg_prm_wf(self.prms)
        &&& 0 <= self.crnt_rate <= 32768
        &&& 0 <= self.tgt_value <= 32768
        &&& EG_VAL_MIN <= self.src_value <= EG_VAL_MAX
        &&& EG_VAL_MIN <= self.crnt_value <= EG_VAL_MAX
        &&& 0 <= self.interpolate_value <= INTERP_CEIL
    }

    pub fn new(prms: &AegParameter) -> (r: Aeg)
        requires
            aeg_prm_wf(*prms),
        ensures
            r.wf(),
            r.prms == *prms,
            r.state == EgState::NotYet,
            r.tgt_value == 0,
            r.src_value == 0,
            r.crnt_value == 0,
            r.crnt_rate == 32768,
            r.interpolate_value == 0,
            r.release_rsv == false,
    {
        Aeg {
            prms: *prms,
            state: EgState::NotYet,
            tgt_value: 0,
            src_value: 0,
            crnt_value: 0,
            crnt_rate: 32768,
            interpolate_value: 0,
            release_rsv: false,
        }
    }

    pub fn move_to_attack(&mut self)
        requires
            old(self).wf(),
        ensures
            final(self).wf(),
            *final(self) == (move_to_attack_spec(*old(self))),
    {
        self.src_value = 0;
        self.tgt_value = 32768;
        self.crnt_rate = self.prms.attack_rate;
        self.state = EgState::Attack;
        self.interpolate_value = 0;
    }

    fn move_to_egdone(&mut self)
        requires
            old(self).wf(),
        ensures
            final(self).wf(),
            *final(self) == (move_to_egdone_spec(*old(self))),
    {
        self.src_value = 0;
        self.tgt_value = 0;
        self.crnt_rate = 0;
        self.state = EgState::EgDone;
        self.interpolate_value = 0;
    }

    fn move_to_sustain(&mut self, eg_crnt: i32)
        requires
            old(self).wf(),
            EG_VAL_MIN <= eg_crnt <= EG_VAL_MAX,
        ensures
            final(self).wf(),
            *final(self) == (move_to_sustain_spec(*old(self), eg_crnt as int)),
    {
        if self.prms.sustain_level == 0 {
            self.move_to_egdone();
        } else {
            self.src_value = eg_crnt;
            self.tgt_value = self.prms.sustain_level;
            self.crnt_rate = 0;
            self.state = EgState::Sustain;
            self.interpolate_value = 0;
        }
    }

    fn move_to_decay(&mut self, eg_crnt: i32)
        requires
            old(self).wf(),
            EG_VAL_MIN <= eg_crnt <= EG_VAL_MAX,
        ensures
            final(self).wf(),
            *final(self) == (move_to_decay_spec(*old(self), eg_crnt as int)),
    {
        if self.prms.decay_rate == 32768 {
            self.move_to_sustain(eg_crnt);
        } else {
            self.src_value = eg_crnt;
            self.tgt_value = self.prms.sustain_level;
            self.crnt_rate = self.prms.decay_rate;
            self.state = EgState::Decay;
            self.interpolate_value = 0;
        }
    }

    pub fn move_to_release(&mut self)
        requires
            old(self).wf(),
        ensures
            final(self).wf(),
            *final(self) == (move_to_release_spec(*old(self))),
    {
        if self.state == EgState::Decay && self.prms.release_rate < self.prms.decay_rate {
            self.release_rsv = true;
        } else {
            self.src_value = self.crnt_value;
            self.tgt_value = 0;
            self.crnt_rate = self.prms.release_rate;
            self.state = EgState::Release;
            self.interpolate_value = 0;
        }
    }

    /// Advance the interpolation one control sample and return the level
    /// it carries the envelope to.
    fn calc_delta_eg(&mut self, eg_diff: i32) -> (r: i32)
        requires
            old(self).wf(),
            -32900 <= eg_diff <= 32900,
            eg_diff == old(self).tgt_value - old(self).src_value,
        ensures
            final(self).wf(),
            final(self).interpolate_value as int
                == interp_next(old(self).interpolate_value as int, old(self).crnt_rate as int),
            r as int == eg_level(eg_diff as int, final(self).interpolate_value as int,
                old(self).src_value as int),
            EG_VAL_MIN <= r <= EG_VAL_MAX,
            final(self).prms == old(self).prms,
            final(self).state == old(self).state,
            final(self).tgt_value == old(self).tgt_value,
            final(self).src_value == old(self).src_value,
            final(self).crnt_value == old(self).crnt_value,
            final(self).crnt_rate == old(self).crnt_rate,
            final(self).release_rsv == old(self).release_rsv,
    {
        let mut intplt = self.interpolate_value;
        if intplt > INTERP_KNEE {
            intplt += STEP_BEFORE_REACHED;
            if intplt > INTERP_CEIL {
                intplt = INTERP_CEIL;
            }
        } else {
            proof {
                lemma_tdiv_scale_le(32768 - self.interpolate_value as int,
                    self.crnt_rate as int, 32768);
            }
            let d = q15_div(mul64((32768 - intplt) as i64, self.crnt_rate as i64));
            intplt += d as i32;
        }
        self.interpolate_value = intplt;
        proof {
            lemma_eg_level_range(self.tgt_value as int, self.src_value as int, intplt as int);
        }
        let lvl = q15_div(mul64(eg_diff as i64, intplt as i64));
        (lvl as i32) + self.src_value
    }

    /// Render one block of n control samples: sample i carries the level
    /// the envelope reaches after i+1 steps from the state at entry, and
    /// the machine itself takes those steps.
    pub fn process(&mut self, cbuf: &mut CtrlFrame)
        requires
            old(self).wf(),
            old(cbuf).wf(),
        ensures
            final(self).wf(),
            *final(self) == (aeg_iter_spec(*old(self), old(cbuf).sample_number as int)),
            final(cbuf).wf(),
            final(cbuf).sample_number == old(cbuf).sample_number,
            forall|i: int| 0 <= i < old(cbuf).sample_number
                ==> final(cbuf).samples()[i] == aeg_iter_spec(*old(self), i + 1).crnt_value,
    {
        let ghost a0: Aeg = *old(self);
        let mut i: usize = 0;
        while i < cbuf.sample_number
            invariant
                i <= cbuf.sample_number,
                self.wf(),
                cbuf.wf(),
                cbuf.sample_number == old(cbuf).sample_number,
                *self == (aeg_iter_spec(a0, i as int)),
                forall|k: int| 0 <= k < i
                    ==> cbuf.samples()[k] == aeg_iter_spec(a0, k + 1).crnt_value,
            decreases cbuf.sample_number - i,
        {
            let ghost prev: Aeg = *self;
            let eg_diff: i32 = self.tgt_value - self.src_value;
            let mut eg_crnt: i32 = self.tgt_value;
            match self.state {
                EgState::Attack => {
                    eg_crnt = self.calc_delta_eg(eg_diff);
                    if eg_diff > 0 && self.tgt_value <= eg_crnt {
                        let t = self.tgt_value;
                        self.move_to_decay(t);
                    }
                }
                EgState::Decay => {
                    eg_crnt = self.calc_delta_eg(eg_diff);
                    if eg_diff < 0 && self.tgt_value >= eg_crnt {
                        if self.release_rsv {
                            self.state = EgState::Sustain;
                            self.move_to_release();
                        } else {
                            let t = self.tgt_value;
                            self.move_to_sustain(t);
                        }
                    }
                }
                EgState::Release => {
                    eg_crnt = self.calc_delta_eg(eg_diff);
                    if eg_diff < 0 && self.tgt_value >= eg_crnt {
                        self.move_to_egdone();
                    }
                }
                _ => {}
            }
            cbuf.set_cbuf(i, eg_crnt);
            self.crnt_value = eg_crnt;
            proof {
                assert(*self == (aeg_step_spec(prev)));
                assert(aeg_iter_spec(a0, i + 1) == aeg_step_spec(aeg_iter_spec(a0, i as int)));
            }
            i += 1;
        }
    }
}

/// The level an interpolation step reaches stays inside the envelope's
/// value window.
proof fn lemma_eg_level_range(tgt: int, src: int, s: int)
    requires
        0 <= tgt <= 32768,
        EG_VAL_MIN <= src <= EG_VAL_MAX,
        0 <= s <= INTERP_CEIL,
    ensures
        EG_VAL_MIN <= eg_level(tgt - src, s, src) <= EG_VAL_MAX,
{
    let d = tgt - src;
    if d >= 0 {
        assert(0 <= d * s <= d * 32801) by (nonlinear_arith)
            requires
                d >= 0,
                0 <= s <= 32801,
        {}
        vstd::arithmetic::div_mod::lemma_div_is_ordered(d * s, d * 32801, 32768);
        vstd::arithmetic::div_mod::lemma_div_pos_is_pos(d * s, 32768);
        assert(d * 32801 <= (d + 34) * 32768) by (nonlinear_arith)
            requires
                0 <= d <= 32900,
        {}
        vstd::arithmetic::div_mod::lemma_div_is_ordered(d * 32801, (d + 34) * 32768, 32768);
        vstd::arithmetic::div_mod::lemma_div_multiples_vanish(d + 34, 32768);
        assert((d + 34) * 32768 == 32768 * (d + 34)) by (nonlinear_arith) {}
        assert(q15(d * s) <= d + 34);
    } else {
        let w = -d;
        assert(0 <= w * s <= w * 32801) by (nonlinear_arith)
            requires
                w >= 0,
                0 <= s <= 32801,
        {}
        vstd::arithmetic::div_mod::lemma_div_is_ordered(w * s, w * 32801, 32768);
        vstd::arithmetic::div_mod::lemma_div_pos_is_pos(w * s, 32768);
        assert(w * 32801 <= (w + 34) * 32768) by (nonlinear_arith)
            requires
                0 <= w <= 32900,
        {}
        vstd::arithmetic::div_mod::lemma_div_is_ordered(w * 32801, (w + 34) * 32768, 32768);
        vstd::arithmetic::div_mod::lemma_div_multiples_vanish(w + 34, 32768);
        assert((w + 34) * 32768 == 32768 * (w + 34)) by (nonlinear_arith) {}
        assert(-(d * s) == w * s) by (nonlinear_arith)
            requires
                w == -d,
        {}
        assert(q15(d * s) >= -(w + 34));
    }
}

} // verus!
