//
//  sgf_prm.rs
//  Musical Sound Generator Framework
//      Instruments Parameter
//
//  Preset bank of the singing-voice instrument.
//
use vstd::prelude::*;

use crate::msgf_aeg::{AegParameter, aeg_prm_wf};
use crate::msgf_lfo::{LfoParameter, LfoWave, LfoDirection, lfo_prm_wf};
use crate::msgf_vocal::{VocalParameter, vocal_prm_wf};

verus! {

#[derive(PartialEq, Eq, Structural, Clone, Copy)]
pub struct SynthParameter {
    pub osc: VocalParameter,
    pub aeg: AegParameter,
    pub lfo: LfoParameter,
}

pub open spec fn sgf_prm_wf(p: SynthParameter) -> bool {
    &&& vocal_prm_wf(p.osc)
    &&& aeg_prm_wf(p.aeg)
    &&& lfo_prm_wf(p.lfo)
}

pub const SGF_MAX_TONE_COUNT: usize = 1;

/// The preset values of the singing tone.
pub open spec fn sgf_tone_prm_spec() -> SynthParameter {
    SynthParameter {
        osc: VocalParameter { coarse_tune: 0, fine_tune: 0, lfo_depth: 655 },
        aeg: AegParameter {
            attack_rate: 19661,
            decay_rate: 1638,
            sustain_level: 16384,
            release_rate: 655,
        },
        lfo: LfoParameter {
            freq: 600,
            wave: LfoWave::Tri,
            direction: LfoDirection::LfoBoth,
            fadein_time: 100,
            delay_time: 100,
        },
    }
}

/// The preset of one singing tone; numbers at or past the bank's end
/// fall back to the last tone.
pub fn sgf_tone_prm(num: usize) -> (r: SynthParameter)
    ensures
        sgf_prm_wf(r),
        r == sgf_tone_prm_spec(),
{
    let _ = num;
    SynthParameter {
        osc: VocalParameter { coarse_tune: 0, fine_tune: 0, lfo_depth: 655 },
        aeg: AegParameter {
            attack_rate: 19661,
            decay_rate: 1638,
            sustain_level: 16384,
            release_rate: 655,
        },
        lfo: LfoParameter {
            freq: 600,
            wave: LfoWave::Tri,
            direction: LfoDirection::LfoBoth,
            fadein_time: 100,
            delay_time: 100,
        },
    }
}

} // verus!
