//
//  lib.rs
//  Musical Sound Generator Framework
//
//  A polyphonic, multi-timbral software synthesizer driven by 3-byte MIDI
//  messages.  The whole signal path works on fixed-point integers: audio
//  and control samples are Q15 (32768 stands for 1.0), frequencies are
//  Q16 Hz, and oscillator phase is Q24.  A host turns the rendered Q15
//  samples into whatever sample format it needs.
//
mod msgf_table;
pub mod msgf_fp;
pub mod msgf_afrm;
pub mod msgf_cfrm;
pub mod msgf_osc;
pub mod msgf_vocal;
pub mod msgf_aeg;
pub mod msgf_lfo;
pub mod msgf_biquad;
pub mod msgf_delay;
pub mod msgf_sd_delay;
pub mod msgf_additive;
pub mod msgf_voice;
pub mod va_prm;
pub mod sgf_prm;
pub mod va_voice;
pub mod sgf_voice;
pub mod va_inst;
pub mod sgf_inst;
pub mod msgf_inst;
pub mod msgf_part;
pub mod msgf_if;

pub use msgf_table::SIN_TABLE;

use vstd::prelude::*;

verus! {

/// Number of MIDI channels the engine serves.
pub const MAX_PART_NUM: usize = 10;

/// Largest audio block, in frames, that one process call may ask for.
pub const MAX_BUFFER_SIZE: usize = 1024;

/// Sample rate in Hz.
pub const SAMPLING_FREQ: u32 = 44100;

/// Audio frames per control-rate sample.
pub const AUDIO_FRAME_PER_CONTROL: usize = 128;

/// Q15 level under which a note is considered silent (about 1e-4).
pub const DAMP_LIMIT_DEPTH: i32 = 3;

/// One full oscillator cycle in Q24 phase units.
pub const PHASE_ONE: u32 = 16777216;

/// 1.0 in Q15.
pub const AMP_ONE: i32 = 32768;

/// Q15 value of 0.99: the level samples are clamped to on overflow.
pub const CLIP_LEVEL: i32 = 32440;

} // verus!
