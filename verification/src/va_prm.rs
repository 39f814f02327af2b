//
//  va_prm.rs
//  Musical Sound Generator Framework
//      Instruments Parameter
//
//  Preset bank of the virtual-analog instrument.  Rates and levels are
//  Q15, fine tune is in cents, modulator rates in centihertz, delay
//  times in frames.
//
use vstd::prelude::*;

use crate::msgf_aeg::{AegParameter, aeg_prm_wf};
use crate::msgf_delay::{DelayParameter, delay_prm_wf};
use crate::msgf_lfo::{LfoParameter, LfoWave, LfoDirection, lfo_prm_wf};
use crate::msgf_osc::{OscParameter, WvType, osc_prm_wf};

verus! {

#[derive(PartialEq, Eq, Structural, Clone, Copy)]
pub struct SynthParameter {
    pub osc: OscParameter,
    pub aeg: AegParameter,
    pub lfo: LfoParameter,
    pub delay: DelayParameter,
}

pub open spec fn synth_prm_wf(p: SynthParameter) -> bool {
    &&& osc_prm_wf(p.osc)
    &&& aeg_prm_wf(p.aeg)
    &&& lfo_prm_wf(p.lfo)
    &&& delay_prm_wf(p.delay)
}

pub const MAX_TONE_COUNT: usize = 6;

/// The preset values of a (clamped) tone index.
pub open spec fn tone_prm_spec(idx: int) -> SynthParameter {
    if idx == 0 {
        SynthParameter {
        osc: OscParameter {
            coarse_tune: 0,
            fine_tune: 0,
            lfo_depth: 655,
            wv_type: WvType::Sine,
        },
        aeg: AegParameter {
            attack_rate: 29491,
            decay_rate: 6554,
            sustain_level: 0,
            release_rate: 328,
        },
        lfo: LfoParameter {
            freq: 200,
            wave: LfoWave::Tri,
            direction: LfoDirection::LfoBoth,
            fadein_time: 30,
            delay_time: 0,
        },
        delay: DelayParameter { l_time: 22050, r_time: 22050, att_ratio: 13107 },
    }
    } else if idx == 1 {
        SynthParameter {
        osc: OscParameter {
            coarse_tune: 0,
            fine_tune: 0,
            lfo_depth: 0,
            wv_type: WvType::Saw,
        },
        aeg: AegParameter {
            attack_rate: 29491,
            decay_rate: 32768,
            sustain_level: 32768,
            release_rate: 6554,
        },
        lfo: LfoParameter {
            freq: 500,
            wave: LfoWave::Tri,
            direction: LfoDirection::LfoBoth,
            fadein_time: 200,
            delay_time: 200,
        },
        delay: DelayParameter { l_time: 26460, r_time: 17640, att_ratio: 9830 },
    }
    } else if idx == 2 {
        SynthParameter {
        osc: OscParameter {
            coarse_tune: 0,
            fine_tune: 0,
            lfo_depth: 655,
            wv_type: WvType::Square,
        },
        aeg: AegParameter {
            attack_rate: 16384,
            decay_rate: 328,
            sustain_level: 16384,
            release_rate: 3277,
        },
        lfo: LfoParameter {
            freq: 450,
            wave: LfoWave::Tri,
            direction: LfoDirection::LfoBoth,
            fadein_time: 300,
            delay_time: 300,
        },
        delay: DelayParameter { l_time: 22050, r_time: 22050, att_ratio: 6554 },
    }
    } else if idx == 3 {
        SynthParameter {
        osc: OscParameter {
            coarse_tune: -12i32,
            fine_tune: 0,
            lfo_depth: 1311,
            wv_type: WvType::Pulse,
        },
        aeg: AegParameter {
            attack_rate: 16384,
            decay_rate: 328,
            sustain_level: 16384,
            release_rate: 3277,
        },
        lfo: LfoParameter {
            freq: 400,
            wave: LfoWave::Tri,
            direction: LfoDirection::LfoBoth,
            fadein_time: 100,
            delay_time: 200,
        },
        delay: DelayParameter { l_time: 35280, r_time: 30870, att_ratio: 6554 },
    }
    } else if idx == 4 {
        SynthParameter {
        osc: OscParameter {
            coarse_tune: 0,
            fine_tune: 0,
            lfo_depth: 655,
            wv_type: WvType::Sine,
        },
        aeg: AegParameter {
            attack_rate: 16384,
            decay_rate: 328,
            sustain_level: 3277,
            release_rate: 328,
        },
        lfo: LfoParameter {
            freq: 600,
            wave: LfoWave::Tri,
            direction: LfoDirection::LfoBoth,
            fadein_time: 100,
            delay_time: 100,
        },
        delay: DelayParameter { l_time: 22050, r_time: 22050, att_ratio: 13107 },
    }
    } else {
        SynthParameter {
        osc: OscParameter {
            coarse_tune: 0,
            fine_tune: 0,
            lfo_depth: 0,
            wv_type: WvType::Saw,
        },
        aeg: AegParameter {
            attack_rate: 16384,
            decay_rate: 328,
            sustain_level: 3277,
            release_rate: 328,
        },
        lfo: LfoParameter {
            freq: 600,
            wave: LfoWave::Tri,
            direction: LfoDirection::LfoBoth,
            fadein_time: 100,
            delay_time: 100,
        },
        delay: DelayParameter { l_time: 22050, r_time: 22050, att_ratio: 13107 },
    }
    }
}

/// The preset of one virtual-analog tone; numbers at or past the bank's
/// end fall back to the last tone.
pub fn tone_prm(num: usize) -> (r: SynthParameter)
    ensures
        synth_prm_wf(r),
        r == tone_prm_spec(if num >= MAX_TONE_COUNT { MAX_TONE_COUNT - 1 } else { num as int }),
{
    let idx = if num >= MAX_TONE_COUNT { MAX_TONE_COUNT - 1 } else { num };
    match idx {
        0 => SynthParameter {
            osc: OscParameter {
                coarse_tune: 0,
                fine_tune: 0,
                lfo_depth: 655,
                wv_type: WvType::Sine,
            },
            aeg: AegParameter {
                attack_rate: 29491,
                decay_rate: 6554,
                sustain_level: 0,
                release_rate: 328,
            },
            lfo: LfoParameter {
                freq: 200,
                wave: LfoWave::Tri,
                direction: LfoDirection::LfoBoth,
                fadein_time: 30,
                delay_time: 0,
            },
            delay: DelayParameter { l_time: 22050, r_time: 22050, att_ratio: 13107 },
        },
        1 => SynthParameter {
            osc: OscParameter {
                coarse_tune: 0,
                fine_tune: 0,
                lfo_depth: 0,
                wv_type: WvType::Saw,
            },
            aeg: AegParameter {
                attack_rate: 29491,
                decay_rate: 32768,
                sustain_level: 32768,
                release_rate: 6554,
            },
            lfo: LfoParameter {
                freq: 500,
                wave: LfoWave::Tri,
                direction: LfoDirection::LfoBoth,
                fadein_time: 200,
                delay_time: 200,
            },
            delay: DelayParameter { l_time: 26460, r_time: 17640, att_ratio: 9830 },
        },
        2 => SynthParameter {
            osc: OscParameter {
                coarse_tune: 0,
                fine_tune: 0,
                lfo_depth: 655,
                wv_type: WvType::Square,
            },
            aeg: AegParameter {
                attack_rate: 16384,
                decay_rate: 328,
                sustain_level: 16384,
                release_rate: 3277,
            },
            lfo: LfoParameter {
                freq: 450,
                wave: LfoWave::Tri,
                direction: LfoDirection::LfoBoth,
                fadein_time: 300,
                delay_time: 300,
            },
            delay: DelayParameter { l_time: 22050, r_time: 22050, att_ratio: 6554 },
        },
        3 => SynthParameter {
            osc: OscParameter {
                coarse_tune: -12,
                fine_tune: 0,
                lfo_depth: 1311,
                wv_type: WvType::Pulse,
            },
            aeg: AegParameter {
                attack_rate: 16384,
                decay_rate: 328,
                sustain_level: 16384,
                release_rate: 3277,
            },
            lfo: LfoParameter {
                freq: 400,
                wave: LfoWave::Tri,
                direction: LfoDirection::LfoBoth,
                fadein_time: 100,
                delay_time: 200,
            },
            delay: DelayParameter { l_time: 35280, r_time: 30870, att_ratio: 6554 },
        },
        4 => SynthParameter {
            osc: OscParameter {
                coarse_tune: 0,
                fine_tune: 0,
                lfo_depth: 655,
                wv_type: WvType::Sine,
            },
            aeg: AegParameter {
                attack_rate: 16384,
                decay_rate: 328,
                sustain_level: 3277,
                release_rate: 328,
            },
            lfo: LfoParameter {
                freq: 600,
                wave: LfoWave::Tri,
                direction: LfoDirection::LfoBoth,
                fadein_time: 100,
                delay_time: 100,
            },
            delay: DelayParameter { l_time: 22050, r_time: 22050, att_ratio: 13107 },
        },
        _ => SynthParameter {
            osc: OscParameter {
                coarse_tune: 0,
                fine_tune: 0,
                lfo_depth: 0,
                wv_type: WvType::Saw,
            },
            aeg: AegParameter {
                attack_rate: 16384,
                decay_rate: 328,
                sustain_level: 3277,
                release_rate: 328,
            },
            lfo: LfoParameter {
                freq: 600,
                wave: LfoWave::Tri,
                direction: LfoDirection::LfoBoth,
                fadein_time: 100,
                delay_time: 100,
            },
            delay: DelayParameter { l_time: 22050, r_time: 22050, att_ratio: 13107 },
        },
    }
}

} // verus!
