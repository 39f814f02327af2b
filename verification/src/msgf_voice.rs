//
//  msgf_voice.rs
//  Musical Sound Generator Framework
//      Voice Class
//
//  The note lifecycle shared by every voice: sounding, released, and
//  the damp fade that retires a voice with a quadratic ramp to zero
//  within DAMP_TIME frames.
//
use vstd::prelude::*;

use crate::msgf_fp::{tdiv, q15};

verus! {

#[derive(PartialEq, Eq, Structural, Clone, Copy, Debug)]
pub enum NoteStatus {
    DuringNoteOn,
    AfterNoteOff,
    DuringDamp,
}

/// Frames a damped voice takes to fade out.
pub const DAMP_TIME: u32 = 300;

/// The Q15 damp gain at damp counter c: the squared fraction of the
/// countdown still to run, zero past the end.
pub open spec fn damp_gain_spec(c: int) -> int {
    if c <= DAMP_TIME as int {
        let r1 = tdiv((DAMP_TIME as int - c) * 32768, DAMP_TIME as int);
        q15(r1 * r1)
    } else {
        0
    }
}

/// How many samples of a block the damp loop touches before it breaks:
/// it stops right after the counter passes DAMP_TIME.
pub open spec fn damp_processed_spec(c0: int, n: int) -> int {
    if n <= 0 {
        0
    } else if c0 > DAMP_TIME as int {
        1
    } else if n < DAMP_TIME as int - c0 + 1 {
        n
    } else {
        DAMP_TIME as int - c0 + 1
    }
}

/// The damp counter after a block of n frames.
pub open spec fn damp_counter_after_spec(c0: int, n: int) -> int {
    c0 + damp_processed_spec(c0, n)
}

/// Whether the voice has finished fading after a block of n frames.
pub open spec fn damp_ended_after_spec(c0: int, n: int) -> bool {
    n > 0 && c0 + damp_processed_spec(c0, n) > DAMP_TIME as int
}

/// Executable form of damp_gain_spec.
pub fn damp_gain(c: u32) -> (r: i32)
    ensures
        r as int == damp_gain_spec(c as int),
        0 <= r <= 32768,
{
    if c <= DAMP_TIME {
        let cntdwn: i64 = (DAMP_TIME - c) as i64;
        let r1 = crate::msgf_fp::tdiv64(cntdwn * 32768, DAMP_TIME as i64);
        proof {
            crate::msgf_fp::lemma_tdiv_bound(cntdwn as int * 32768, DAMP_TIME as int, (300 * 32768) as int);
            assert(((300 * 32768) as int) / 300 == 32768);
            crate::msgf_fp::lemma_tdiv_scale_le(r1 as int, r1 as int, 32768);
        }
        let r = crate::msgf_fp::q15_div(crate::msgf_fp::mul64(r1, r1));
        r as i32
    } else {
        0
    }
}

/// A voice in the damp fade is finished at most DAMP_TIME + 1 frames
/// after the fade began, whatever block sizes carry it there.
pub proof fn lemma_damp_finishes(c0: int, n: int)
    requires
        0 <= c0 <= DAMP_TIME as int,
        n >= DAMP_TIME as int + 1 - c0,
        n > 0,
    ensures
        damp_ended_after_spec(c0, n),
{
}

} // verus!
