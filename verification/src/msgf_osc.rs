//
//  msgf_osc.rs
//  Musical Sound Generator Framework
//      Osc Class
//
//  The basic oscillator family: sine from the wave table, band-limited
//  saw and square, and a pulse built from a precomputed Fourier series.
//  Pitch lives in Q16 Hz, pitch ratios in Q16, phase in Q24, and samples
//  in Q15.
//
use vstd::prelude::*;

use crate::{PHASE_ONE, AUDIO_FRAME_PER_CONTROL};
use crate::msgf_afrm::{AudioFrame, clip_spec};
use crate::msgf_cfrm::{CtrlFrame, CTRL_LIMIT};
use crate::msgf_fp::{tdiv, q15, q16, mul64, tdiv64, q15_div, q16_div, lemma_tdiv_bound};
use crate::msgf_table::{SIN_TABLE, PITCH_OF_A, SEMITONE_RATIO, CENT_RATIO, PULSE0_1};

verus! {

/// Overtones above this frequency, in Hz, are not generated.
pub const ABORT_FREQUENCY: u32 = 12000;

/// Upper bound on any base pitch, Q16 Hz.
pub const PITCH_MAX: u32 = 3_500_000_000;

/// Upper bound on any pitch ratio, Q16.
pub const RATIO_MAX: u32 = 2_147_483_648;

/// Largest magnitude, in cents, a pitch offset may take.
pub const CENTS_LIMIT: i32 = 16000;

/// Overtones are capped here for every band-limited shape.
pub const MAX_OVERTONE_GUARD: usize = 32;

#[derive(PartialEq, Eq, Structural, Clone, Copy, Debug)]
pub enum WvType {
    Sine,
    Saw,
    Square,
    Pulse,
}

#[derive(PartialEq, Eq, Structural, Clone, Copy)]
pub struct OscParameter {
    pub coarse_tune: i32,  //  [semitone]
    pub fine_tune: i32,    //  [cent]
    pub lfo_depth: i32,    //  Q15; 32768 means +-1 octave
    pub wv_type: WvType,
}

/// Parameter ranges every preset obeys.
pub open spec fn osc_prm_wf(p: OscParameter) -> bool {
    &&& -128 <= p.coarse_tune <= 128
    &&& -1200 <= p.fine_tune <= 1200
    &&& 0 <= p.lfo_depth <= 32768
}

/// 2^k for k >= 0.
pub open spec fn pow2s(k: int) -> int
    decreases k,
{
    if k <= 0 {
        1
    } else {
        2 * pow2s(k - 1)
    }
}

pub proof fn lemma_pow2s_pos(k: int)
    ensures
        pow2s(k) >= 1,
    decreases k,
{
    if k > 0 {
        lemma_pow2s_pos(k - 1);
    }
}

pub proof fn lemma_pow2s_mono(a: int, b: int)
    requires
        a <= b,
    ensures
        pow2s(a) <= pow2s(b),
    decreases b,
{
    if a < b && b > 0 {
        lemma_pow2s_mono(a, b - 1);
        lemma_pow2s_pos(b - 1);
    }
}

/// Wrap a note number into 0..128 by whole octaves.
pub open spec fn limit_note_spec(n: int) -> int
    decreases (if n < 0 { 12 - n } else { n }),
{
    if n < 0 {
        limit_note_spec(n + 12)
    } else if n >= 128 {
        limit_note_spec(n - 12)
    } else {
        n
    }
}

/// The Q16 ratio of a pitch offset in cents: 2^(cents/1200), built from
/// the semitone and cent ratio tables, with whole octaves applied as
/// doublings or halvings.  An offset of zero is exactly 1.
pub open spec fn cnt_pitch_spec(cents: int) -> int {
    if cents == 0 {
        65536
    } else {
        let oct = cents / 1200;
        let c = cents % 1200;
        let base = (SEMITONE_RATIO[c / 100] * CENT_RATIO[c % 100]) / 65536;
        if oct >= 0 {
            base * pow2s(oct)
        } else {
            base / pow2s(-oct)
        }
    }
}

/// The Q16 Hz base pitch of a note: octave anchor times semitone ratio,
/// then the fine-tune cent ratio.
pub open spec fn base_pitch_spec(coarse: int, fine: int, note: int) -> int {
    let tn = limit_note_spec(note + coarse);
    let solfa = (tn + 3) % 12;
    let octave = (tn + 3) / 12;
    let ap = (PITCH_OF_A[octave] * SEMITONE_RATIO[solfa]) / 65536;
    (ap * cnt_pitch_spec(fine)) / 65536
}

/// Table value of the cent decomposition is at least one and below 2^17.
proof fn lemma_cnt_base_range(c: int)
    requires
        0 <= c < 1200,
    ensures
        65536 <= (SEMITONE_RATIO[c / 100] * CENT_RATIO[c % 100]) / 65536 < 131072,
{
    let s = SEMITONE_RATIO[c / 100] as int;
    let f = CENT_RATIO[c % 100] as int;
    assert(65536 <= s <= 123715);
    assert(65536 <= f <= 69393);
    assert(65536 * 65536 <= s * f <= 123715 * 69393) by (nonlinear_arith)
        requires
            65536 <= s <= 123715,
            65536 <= f <= 69393,
    {}
    assert((s * f) / 65536 >= 65536) by (nonlinear_arith)
        requires
            s * f >= 65536 * 65536,
    {}
    assert((s * f) / 65536 < 131072) by (nonlinear_arith)
        requires
            s * f <= 123715 * 69393,
    {}
}

/// The cent ratio stays within RATIO_MAX for any offset the engine can
/// form, and is positive whenever the offset is at least -16000 cents.
pub proof fn lemma_cnt_pitch_range(cents: int)
    requires
        -CENTS_LIMIT <= cents <= CENTS_LIMIT,
    ensures
        0 < cnt_pitch_spec(cents) <= RATIO_MAX as int,
{
    if cents != 0 {
        let oct = cents / 1200;
        let c = cents % 1200;
        vstd::arithmetic::div_mod::lemma_mod_bound(cents, 1200);
        assert(-14 <= oct <= 13) by (nonlinear_arith)
            requires
                -16000 <= cents <= 16000,
                oct == cents / 1200,
                c == cents % 1200,
                0 <= c < 1200,
                cents == 1200 * oct + c,
        {}
        lemma_cnt_base_range(c);
        let base = (SEMITONE_RATIO[c / 100] * CENT_RATIO[c % 100]) / 65536;
        if oct >= 0 {
            lemma_pow2s_mono(oct, 13);
            assert(pow2s(13) == 8192) by {
                reveal_with_fuel(pow2s, 15);
            }
            lemma_pow2s_pos(oct);
            assert(base * pow2s(oct) <= 131072 * 8192) by (nonlinear_arith)
                requires
                    0 <= base < 131072,
                    1 <= pow2s(oct) <= 8192,
            {}
            assert(base * pow2s(oct) >= 1) by (nonlinear_arith)
                requires
                    base >= 1,
                    pow2s(oct) >= 1,
            {}
        } else {
            lemma_pow2s_mono(-oct, 14);
            assert(pow2s(14) == 16384) by {
                reveal_with_fuel(pow2s, 16);
            }
            lemma_pow2s_pos(-oct);
            assert(base / pow2s(-oct) >= 4) by (nonlinear_arith)
                requires
                    base >= 65536,
                    1 <= pow2s(-oct) <= 16384,
            {}
            assert(base / pow2s(-oct) <= base) by (nonlinear_arith)
                requires
                    base >= 0,
                    pow2s(-oct) >= 1,
            {}
        }
    }
}

/// Executable form of cnt_pitch_spec: the Q16 ratio of an offset in cents.
pub fn calc_cnt_pitch(cents: i32) -> (r: u32)
    requires
        -CENTS_LIMIT <= cents <= CENTS_LIMIT,
    ensures
        r == cnt_pitch_spec(cents as int),
        0 < r <= RATIO_MAX,
{
    proof {
        lemma_cnt_pitch_range(cents as int);
    }
    if cents == 0 {
        return 65536;
    }
    let mut c: i32 = cents;
    let mut oct: i32 = 0;
    while c < 0
        invariant
            -CENTS_LIMIT <= cents <= CENTS_LIMIT,
            cents == c + 1200 * oct,
            -14 <= oct <= 0,
            -16000 <= c <= CENTS_LIMIT,
        decreases 16000 - c,
    {
        proof {
            assert(cents == (c + 1200) + 1200 * (oct - 1)) by (nonlinear_arith)
                requires
                    cents == c + 1200 * oct,
            {}
            assert(oct - 1 >= -14) by (nonlinear_arith)
                requires
                    cents == c + 1200 * oct,
                    cents >= -16000,
                    c < 0,
            {}
        }
        c += 1200;
        oct -= 1;
    }
    while c >= 1200
        invariant
            -CENTS_LIMIT <= cents <= CENTS_LIMIT,
            cents == c + 1200 * oct,
            0 <= c <= CENTS_LIMIT,
            -14 <= oct <= 13,
        decreases c,
    {
        proof {
            assert(cents == (c - 1200) + 1200 * (oct + 1)) by (nonlinear_arith)
                requires
                    cents == c + 1200 * oct,
            {}
            assert(oct + 1 <= 13) by (nonlinear_arith)
                requires
                    cents == c + 1200 * oct,
                    cents <= 16000,
                    c >= 1200,
            {}
        }
        c -= 1200;
        oct += 1;
    }
    proof {
        vstd::arithmetic::div_mod::lemma_fundamental_div_mod_converse(
            cents as int, 1200, oct as int, c as int);
        lemma_cnt_base_range(c as int);
    }
    let ci = c as usize;
    let base: i64 = q16_div(mul64(SEMITONE_RATIO[ci / 100] as i64, CENT_RATIO[ci % 100] as i64));
    let ghost base_g: int = base as int;
    let ghost oct_g: int = oct as int;
    let mut r: i64 = base;
    if oct >= 0 {
        let mut k: i32 = oct;
        while k > 0
            invariant
                0 <= k <= oct_g,
                0 <= oct_g <= 13,
                1 <= base_g < 131072,
                r == base_g * pow2s(oct_g - k),
            decreases k,
        {
            proof {
                lemma_pow2s_mono(oct_g - k, 12);
                assert(pow2s(12) == 4096) by {
                    reveal_with_fuel(pow2s, 14);
                }
                lemma_pow2s_pos(oct_g - k);
                assert(r <= 131072 * 4096) by (nonlinear_arith)
                    requires
                        r == base_g * pow2s(oct_g - k),
                        1 <= base_g < 131072,
                        1 <= pow2s(oct_g - k) <= 4096,
                {}
                assert(r >= 1) by (nonlinear_arith)
                    requires
                        r == base_g * pow2s(oct_g - k),
                        base_g >= 1,
                        pow2s(oct_g - k) >= 1,
                {}
                assert(base_g * pow2s(oct_g - k) * 2 == base_g * pow2s(oct_g - (k - 1))) by (nonlinear_arith)
                    requires
                        pow2s(oct_g - (k - 1)) == 2 * pow2s(oct_g - k),
                {}
            }
            r = r * 2;
            k -= 1;
        }
    } else {
        let mut k: i32 = -oct;
        while k > 0
            invariant
                0 <= k <= -oct_g,
                -14 <= oct_g < 0,
                1 <= base_g < 131072,
                0 <= r,
                r == base_g / pow2s(-oct_g - k),
                r <= base_g,
            decreases k,
        {
            proof {
                lemma_pow2s_pos(-oct_g - k);
                vstd::arithmetic::div_mod::lemma_div_denominator(
                    base_g, pow2s(-oct_g - k), 2);
                assert(pow2s(-oct_g - k) * 2 == pow2s(-oct_g - (k - 1)));
                vstd::arithmetic::div_mod::lemma_div_is_ordered_by_denominator(
                    base_g, pow2s(-oct_g - k), pow2s(-oct_g - (k - 1)));
            }
            r = r / 2;
            k -= 1;
        }
    }
    r as u32
}

/// A clamp to one in Q15, applied to interpolated table reads.
pub open spec fn clamp_unit(v: int) -> int {
    if v > 32767 {
        32767
    } else if v < -32767 {
        -32767
    } else {
        v
    }
}

/// Linear interpolation into the sine table at a Q24 phase.
pub open spec fn pseudo_sine_spec(ph: int) -> int {
    let idx = ph / 65536;
    let frac = ph % 65536;
    clamp_unit(SIN_TABLE[idx] + tdiv((SIN_TABLE[idx + 1] - SIN_TABLE[idx]) * frac, 65536))
}

/// Band-limited saw: overtones j = 1 .. k-1 at half amplitude over j.
pub open spec fn saw_spec(ph: int, k: int) -> int
    decreases k,
{
    if k <= 1 {
        0
    } else {
        saw_spec(ph, k - 1) + tdiv(pseudo_sine_spec((ph * (k - 1)) % (PHASE_ONE as int)), 2 * (k - 1))
    }
}

/// Band-limited square: odd overtones j = 1, 3, .. below k at quarter
/// amplitude over j.
pub open spec fn square_spec(ph: int, k: int) -> int
    decreases k,
{
    if k <= 1 {
        0
    } else if (k - 1) % 2 == 1 {
        square_spec(ph, k - 1) + tdiv(pseudo_sine_spec((ph * (k - 1)) % (PHASE_ONE as int)), 4 * (k - 1))
    } else {
        square_spec(ph, k - 1)
    }
}

/// Pulse with 10% duty: the DC offset plus the tabled Fourier series,
/// overtones j = 1 .. min(k, 32) - 1 at half amplitude.
pub open spec fn pulse_sum_spec(ph: int, k: int) -> int
    decreases k,
{
    if k <= 1 {
        0
    } else {
        pulse_sum_spec(ph, k - 1) + tdiv(
            PULSE0_1[k - 1] * pseudo_sine_spec((ph * (k - 1)) % (PHASE_ONE as int)), 65536)
    }
}

pub open spec fn pulse_spec(ph: int, k: int) -> int {
    3277 + pulse_sum_spec(ph, if k > 32 { 32 } else { k })
}

/// The raw Q15 value of each oscillator shape at a phase, before the
/// clip that the audio frame applies on write.
pub open spec fn wave_spec(wv: WvType, ph: int, k: int) -> int {
    match wv {
        WvType::Sine => pseudo_sine_spec(ph),
        WvType::Saw => saw_spec(ph, k),
        WvType::Square => square_spec(ph, k),
        WvType::Pulse => pulse_spec(ph, k),
    }
}

/// Every wave value stays well inside i32.
pub proof fn lemma_saw_bound(ph: int, k: int)
    requires
        1 <= k,
    ensures
        -32767 * (k - 1) <= saw_spec(ph, k) <= 32767 * (k - 1),
    decreases k,
{
    if k > 1 {
        lemma_saw_bound(ph, k - 1);
        lemma_tdiv_bound(pseudo_sine_spec((ph * (k - 1)) % (PHASE_ONE as int)), 2 * (k - 1), 32767);
    }
}

pub proof fn lemma_square_bound(ph: int, k: int)
    requires
        1 <= k,
    ensures
        -32767 * (k - 1) <= square_spec(ph, k) <= 32767 * (k - 1),
    decreases k,
{
    if k > 1 {
        lemma_square_bound(ph, k - 1);
        if (k - 1) % 2 == 1 {
            lemma_tdiv_bound(pseudo_sine_spec((ph * (k - 1)) % (PHASE_ONE as int)), 4 * (k - 1), 32767);
        }
    }
}

pub proof fn lemma_pulse_sum_bound(ph: int, k: int)
    requires
        1 <= k <= 32,
    ensures
        -16384 * (k - 1) <= pulse_sum_spec(ph, k) <= 16384 * (k - 1),
    decreases k,
{
    if k > 1 {
        lemma_pulse_sum_bound(ph, k - 1);
        let ps = pseudo_sine_spec((ph * (k - 1)) % (PHASE_ONE as int));
        assert(-32767 <= PULSE0_1[k - 1] <= 32767);
        assert(-32767 * 32767 <= PULSE0_1[k - 1] * ps <= 32767 * 32767) by (nonlinear_arith)
            requires
                -32767 <= PULSE0_1[k - 1] <= 32767,
                -32767 <= ps <= 32767,
        {}
        lemma_tdiv_bound(PULSE0_1[k - 1] * ps, 65536, (32767 * 32767) as int);
    }
}

/// Wrap a note number into 0..128 by whole octaves.
pub fn limit_note(calculated_note: i32) -> (r: u8)
    requires
        -16512 <= calculated_note <= 16512,
    ensures
        r == limit_note_spec(calculated_note as int),
        r < 128,
{
    let mut note = calculated_note;
    while note < 0
        invariant
            limit_note_spec(note as int) == limit_note_spec(calculated_note as int),
            -16512 <= note <= 16512,
        decreases 16512 - note,
    {
        note += 12;
    }
    while note >= 128
        invariant
            limit_note_spec(note as int) == limit_note_spec(calculated_note as int),
            0 <= note <= 16512,
        decreases note,
    {
        note -= 12;
    }
    note as u8
}

/// Executable form of pseudo_sine_spec.
pub fn pseudo_sine(phase: u32) -> (r: i32)
    requires
        phase < PHASE_ONE,
    ensures
        r == pseudo_sine_spec(phase as int),
        -32767 <= r <= 32767,
{
    let idx = (phase / 65536) as usize;
    let frac = (phase % 65536) as i64;
    let y0 = SIN_TABLE[idx];
    let y1 = SIN_TABLE[idx + 1];
    let t = tdiv64(mul64(y1 as i64 - y0 as i64, frac), 65536);
    let y = y0 as i64 + t;
    if y > 32767 {
        32767
    } else if y < -32767 {
        -32767
    } else {
        y as i32
    }
}

/// Executable form of base_pitch_spec.
pub fn calc_base_pitch(coarse_tune: i32, fine_tune: i32, note: u8) -> (r: u32)
    requires
        -128 <= coarse_tune <= 128,
        -1200 <= fine_tune <= 1200,
    ensures
        r == base_pitch_spec(coarse_tune as int, fine_tune as int, note as int),
        450560 <= r <= PITCH_MAX,
{
    let tune_note = limit_note(note as i32 + coarse_tune);
    let solfa = ((tune_note as usize) + 3) % 12;
    let octave = ((tune_note as usize) + 3) / 12;
    let anchor = PITCH_OF_A[octave];
    assert(901120 <= anchor <= 922746880);
    assert(65536 <= SEMITONE_RATIO[solfa as int] <= 123715);
    let ap: i64 = q16_div(mul64(anchor as i64, SEMITONE_RATIO[solfa] as i64));
    proof {
        assert(901120 * 65536 <= anchor * SEMITONE_RATIO[solfa as int]
            <= 922746880 * 123715) by (nonlinear_arith)
            requires
                901120 <= anchor <= 922746880,
                65536 <= SEMITONE_RATIO[solfa as int] <= 123715,
        {}
        assert(901120 <= (anchor * SEMITONE_RATIO[solfa as int]) / 65536
            <= 1741910000) by (nonlinear_arith)
            requires
                901120 * 65536 <= anchor * SEMITONE_RATIO[solfa as int] <= 922746880 * 123715,
        {}
    }
    let ratio = calc_cnt_pitch(fine_tune);
    proof {
        lemma_fine_ratio_range(fine_tune as int);
    }
    let bp: i64 = q16_div(mul64(ap, ratio as i64));
    proof {
        assert(901120 * 32768 <= ap * ratio <= 1741910000 * 131072) by (nonlinear_arith)
            requires
                901120 <= ap <= 1741910000,
                32768 <= ratio <= 131072,
        {}
        assert(450560 <= (ap * ratio) / 65536 <= 3483820000) by (nonlinear_arith)
            requires
                901120 * 32768 <= ap * ratio <= 1741910000 * 131072,
        {}
    }
    bp as u32
}

/// For a fine tune within one octave, the cent ratio lies between a half
/// and twice 1.0 in Q16.
pub proof fn lemma_fine_ratio_range(cents: int)
    requires
        -1200 <= cents <= 1200,
    ensures
        32768 <= cnt_pitch_spec(cents) <= 131072,
{
    if cents != 0 {
        let oct = cents / 1200;
        let c = cents % 1200;
        vstd::arithmetic::div_mod::lemma_mod_bound(cents, 1200);
        assert(-1 <= oct <= 1) by (nonlinear_arith)
            requires
                -1200 <= cents <= 1200,
                0 <= c < 1200,
                cents == 1200 * oct + c,
        {}
        lemma_cnt_base_range(c);
        let base = (SEMITONE_RATIO[c / 100] * CENT_RATIO[c % 100]) / 65536;
        if oct == 1 {
            assert(cents == 1200 && c == 0) by (nonlinear_arith)
                requires
                    -1200 <= cents <= 1200,
                    0 <= c < 1200,
                    cents == 1200 * oct + c,
                    oct == 1,
            {}
            assert(base == 65536);
            assert(pow2s(1) == 2) by {
                reveal_with_fuel(pow2s, 3);
            }
        } else if oct == 0 {
            assert(base * pow2s(0) == base);
        } else {
            assert(pow2s(1) == 2) by {
                reveal_with_fuel(pow2s, 3);
            }
            assert(base / 2 >= 32768 && base / 2 <= 65535);
        }
    }
}

/// Overtones the band-limited shapes may use at a base pitch: frequencies
/// above ABORT_FREQUENCY are cut, and at most 32 overtones are taken.
pub open spec fn max_overtone_spec(base_pitch: int) -> int {
    let mo = 786432000int / base_pitch;
    if mo > MAX_OVERTONE_GUARD as int {
        MAX_OVERTONE_GUARD as int
    } else {
        mo
    }
}

/// Q24 phase advance per audio frame at a base pitch and bend ratio,
/// capped below one full cycle.
pub open spec fn delta_phase_spec(base: int, ratio: int) -> int {
    let dp = (base * ratio) / 11289600;
    if dp >= PHASE_ONE as int {
        PHASE_ONE as int - 1
    } else {
        dp
    }
}

/// Pitch modulation in cents from an LFO control sample and the Q15
/// modulation depth: a depth of 1.0 swings one octave either way.
pub open spec fn mod_cents_spec(l: int, pmd: int) -> int {
    tdiv(q15(l * pmd) * 1200, 32768)
}

pub open spec fn mod_ratio_spec(l: int, pmd: int) -> int {
    cnt_pitch_spec(mod_cents_spec(l, pmd))
}

/// One frame of phase advance, wrapped to a cycle.
pub open spec fn phase_step_spec(ph: int, dp: int, l: int, pmd: int) -> int {
    (ph + q16(dp * mod_ratio_spec(l, pmd))) % (PHASE_ONE as int)
}

/// The oscillator phase before frame i of a block, given the start phase,
/// the frame advance, the depth and the control block.
pub open spec fn phase_at_spec(p0: int, dp: int, pmd: int, lbuf: Seq<i32>, i: int) -> int
    decreases i,
{
    if i <= 0 {
        p0
    } else {
        phase_step_spec(
            phase_at_spec(p0, dp, pmd, lbuf, i - 1),
            dp,
            lbuf[(i - 1) / (AUDIO_FRAME_PER_CONTROL as int)] as int,
            pmd,
        )
    }
}

/// Executable form of one phase step.
pub fn osc_phase_step(ph: u32, dp: u32, l: i32, pmd: i32) -> (r: u32)
    requires
        ph < PHASE_ONE,
        dp < PHASE_ONE,
        -CTRL_LIMIT <= l <= CTRL_LIMIT,
        0 <= pmd <= 32768,
    ensures
        r == phase_step_spec(ph as int, dp as int, l as int, pmd as int),
        r < PHASE_ONE,
{
    proof {
        assert(-(131072 * 32768) <= (l as int) * (pmd as int) <= 131072 * 32768) by (nonlinear_arith)
            requires
                -131072 <= l as int <= 131072,
                0 <= pmd as int <= 32768,
        {}
    }
    let a = q15_div(mul64(l as i64, pmd as i64));
    proof {
        lemma_tdiv_bound((l as int) * (pmd as int), 32768, (131072 * 32768) as int);
        assert(((131072 * 32768) as int) / 32768 == 131072);
        assert(-131072 <= a <= 131072);
    }
    let mc = tdiv64(mul64(a, 1200), 32768);
    proof {
        lemma_tdiv_bound((a as int) * 1200, 32768, (131072 * 1200) as int);
        assert(((131072 * 1200) as int) / 32768 == 4800);
        assert(-4800 <= mc <= 4800);
    }
    let ratio = calc_cnt_pitch(mc as i32);
    let inc = q16_div(mul64(dp as i64, ratio as i64));
    let nph = ((ph as u64 + inc as u64) % (PHASE_ONE as u64)) as u32;
    nph
}

/// Executable form of delta_phase_spec.
pub fn calc_delta_phase(base_pitch: u32, cnt_ratio: u32) -> (r: u32)
    requires
        0 < base_pitch <= PITCH_MAX,
        0 < cnt_ratio <= RATIO_MAX,
    ensures
        r == delta_phase_spec(base_pitch as int, cnt_ratio as int),
        r < PHASE_ONE,
{
    proof {
        assert(base_pitch * cnt_ratio <= 3_500_000_000 * 2_147_483_648) by (nonlinear_arith)
            requires
                0 < base_pitch <= 3_500_000_000,
                0 < cnt_ratio <= 2_147_483_648,
        {}
    }
    let p = (base_pitch as u64) * (cnt_ratio as u64);
    let dp = p / 11289600;
    if dp >= PHASE_ONE as u64 {
        PHASE_ONE - 1
    } else {
        dp as u32
    }
}

/// Executable form of max_overtone_spec.
fn calc_max_overtone(base_pitch: u32) -> (r: usize)
    requires
        0 < base_pitch,
    ensures
        r == max_overtone_spec(base_pitch as int),
        r <= MAX_OVERTONE_GUARD,
{
    let mo = (786432000u64 / (base_pitch as u64)) as usize;
    if mo > MAX_OVERTONE_GUARD {
        MAX_OVERTONE_GUARD
    } else {
        mo
    }
}

/// The raw Q15 value of a wave shape at a phase, before clipping.
#[verifier::rlimit(60)]
pub fn wave_value(wv: WvType, phase: u32, max_overtone: usize) -> (r: i32)
    requires
        phase < PHASE_ONE,
        max_overtone <= MAX_OVERTONE_GUARD,
    ensures
        r == wave_spec(wv, phase as int, max_overtone as int),
        -67141632 <= r <= 67141632,
{
    let ghost ph: int = phase as int;
    match wv {
        WvType::Sine => pseudo_sine(phase),
        WvType::Saw => {
            let mut sum: i64 = 0;
            let mut j: usize = 1;
            if max_overtone <= 1 {
                return 0;
            }
            while j < max_overtone
                invariant
                    1 <= j <= max_overtone,
                    max_overtone <= MAX_OVERTONE_GUARD,
                    phase < PHASE_ONE,
                    ph == phase as int,
                    sum == saw_spec(ph, j as int),
                    -32767 * (j - 1) <= sum <= 32767 * (j - 1),
                decreases max_overtone - j,
            {
                proof {
                    assert(0 <= (phase as int) * (j as int) < 0x10_0000_0000) by (nonlinear_arith)
                        requires
                            0 <= (phase as int) < 16777216,
                            0 <= (j as int) <= 2048,
                    {}
                }
                let pjw: u64 = (phase as u64) * (j as u64);
                proof {
                    assert(pjw == ph * (j as int));
                }
                let pj = (pjw % (PHASE_ONE as u64)) as u32;
                proof {
                    assert(pj as int == (ph * (j as int)) % (PHASE_ONE as int));
                }
                let ps = pseudo_sine(pj);
                let t = tdiv64(ps as i64, 2 * j as i64);
                proof {
                    assert(pj as int == (ph * (j as int)) % (PHASE_ONE as int));
                    assert(t == tdiv(pseudo_sine_spec((ph * (j as int)) % (PHASE_ONE as int)), 2 * (j as int)));
                    assert(saw_spec(ph, j + 1) == saw_spec(ph, j as int)
                        + tdiv(pseudo_sine_spec((ph * (j as int)) % (PHASE_ONE as int)), 2 * (j as int)));
                }
                sum = sum + t;
                j += 1;
            }
            sum as i32
        }
        WvType::Square => {
            let mut sum: i64 = 0;
            let mut j: usize = 1;
            if max_overtone <= 1 {
                return 0;
            }
            while j < max_overtone
                invariant
                    1 <= j <= max_overtone + 1,
                    j % 2 == 1,
                    max_overtone <= MAX_OVERTONE_GUARD,
                    phase < PHASE_ONE,
                    ph == phase as int,
                    sum == square_spec(ph, j as int),
                    -32767 * (j - 1) <= sum <= 32767 * (j - 1),
                decreases max_overtone + 1 - j,
            {
                proof {
                    assert(0 <= (phase as int) * (j as int) < 0x10_0000_0000) by (nonlinear_arith)
                        requires
                            0 <= (phase as int) < 16777216,
                            0 <= (j as int) <= 2048,
                    {}
                }
                let pjw: u64 = (phase as u64) * (j as u64);
                proof {
                    assert(pjw == ph * (j as int));
                }
                let pj = (pjw % (PHASE_ONE as u64)) as u32;
                proof {
                    assert(pj as int == (ph * (j as int)) % (PHASE_ONE as int));
                }
                let ps = pseudo_sine(pj);
                let t = tdiv64(ps as i64, 4 * j as i64);
                proof {
                    assert(pj as int == (ph * (j as int)) % (PHASE_ONE as int));
                    assert(t == tdiv(pseudo_sine_spec((ph * (j as int)) % (PHASE_ONE as int)), 4 * (j as int)));
                    assert(square_spec(ph, j + 1) == square_spec(ph, j as int)
                        + tdiv(pseudo_sine_spec((ph * (j as int)) % (PHASE_ONE as int)), 4 * (j as int)));
                    assert(square_spec(ph, j + 2) == square_spec(ph, j + 1));
                }
                sum = sum + t;
                j += 2;
            }
            proof {
                if j == max_overtone + 1 {
                    assert(square_spec(ph, max_overtone + 1) == square_spec(ph, max_overtone as int));
                }
            }
            sum as i32
        }
        WvType::Pulse => {
            let oti: usize = if max_overtone > 32 { 32 } else { max_overtone };
            let mut sum: i64 = 0;
            let mut j: usize = 1;
            if oti <= 1 {
                proof {
                    assert(pulse_sum_spec(ph, if max_overtone > 32 { 32int } else { max_overtone as int }) == 0);
                }
                return 3277;
            }
            while j < oti
                invariant
                    1 <= j <= oti,
                    oti <= 32,
                    phase < PHASE_ONE,
                    ph == phase as int,
                    sum == pulse_sum_spec(ph, j as int),
                    -16384 * (j - 1) <= sum <= 16384 * (j - 1),
                decreases oti - j,
            {
                proof {
                    assert(0 <= (phase as int) * (j as int) < 0x10_0000_0000) by (nonlinear_arith)
                        requires
                            0 <= (phase as int) < 16777216,
                            0 <= (j as int) <= 2048,
                    {}
                }
                let pjw: u64 = (phase as u64) * (j as u64);
                proof {
                    assert(pjw == ph * (j as int));
                }
                let pj = (pjw % (PHASE_ONE as u64)) as u32;
                proof {
                    assert(pj as int == (ph * (j as int)) % (PHASE_ONE as int));
                }
                let ps = pseudo_sine(pj);
                assert(-32767 <= PULSE0_1[j as int] <= 32767);
                let t = tdiv64(mul64(PULSE0_1[j] as i64, ps as i64), 65536);
                proof {
                    assert(-32767 * 32767 <= PULSE0_1[j as int] * ps <= 32767 * 32767) by (nonlinear_arith)
                        requires
                            -32767 <= PULSE0_1[j as int] <= 32767,
                            -32767 <= ps <= 32767,
                    {}
                    lemma_tdiv_bound(PULSE0_1[j as int] * ps, 65536, (32767 * 32767) as int);
                    assert(((32767 * 32767) as int) / 65536 == 16383);
                    assert(pj as int == (ph * (j as int)) % (PHASE_ONE as int));
                    assert(t == tdiv(PULSE0_1[j as int] * pseudo_sine_spec((ph * (j as int)) % (PHASE_ONE as int)), 65536));
                    assert(pulse_sum_spec(ph, j + 1) == pulse_sum_spec(ph, j as int)
                        + tdiv(PULSE0_1[j as int] * pseudo_sine_spec((ph * (j as int)) % (PHASE_ONE as int)), 65536));
                }
                sum = sum + t;
                j += 1;
            }
            3277 + sum as i32
        }
    }
}

//---------------------------------------------------------
//      The oscillator
//---------------------------------------------------------
pub struct Osc {
    pub prms_variable: OscParameter,
    pub pmd: i32,         //  Q15
    pub base_pitch: u32,  //  Q16 [Hz]
    pub cnt_ratio: u32,   //  Q16 bend ratio
    pub next_phase: u32,  //  Q24, 0 .. PHASE_ONE
}

impl Osc {
    pub open spec fn wf(self) -> bool {
        &&& osc_prm_wf(self.prms_variable)
        &&& 0 <= self.pmd <= 32768
        &&& 0 < self.base_pitch <= PITCH_MAX
        &&& 0 < self.cnt_ratio <= RATIO_MAX
        &&& self.next_phase < PHASE_ONE
    }

    pub fn new(prms: &OscParameter, note: u8, pmd: i32, cnt_pitch: i32) -> (r: Osc)
        requires
            osc_prm_wf(*prms),
            0 <= pmd <= 32768,
            -CENTS_LIMIT <= cnt_pitch <= CENTS_LIMIT,
        ensures
            r.wf(),
            r.prms_variable == *prms,
            r.pmd == pmd,
            r.base_pitch == base_pitch_spec(prms.coarse_tune as int, prms.fine_tune as int, note as int),
            r.cnt_ratio == cnt_pitch_spec(cnt_pitch as int),
            r.next_phase == 0,
    {
        Osc {
            prms_variable: *prms,
            pmd,
            base_pitch: calc_base_pitch(prms.coarse_tune, prms.fine_tune, note),
            cnt_ratio: calc_cnt_pitch(cnt_pitch),
            next_phase: 0,
        }
    }

    /// Set the pitch-modulation depth (Q15; 32768 is one octave).
    pub fn change_pmd(&mut self, value: i32)
        requires
            old(self).wf(),
            0 <= value <= 32768,
        ensures
            final(self).wf(),
            final(self).pmd == value,
            final(self).prms_variable == old(self).prms_variable,
            final(self).base_pitch == old(self).base_pitch,
            final(self).cnt_ratio == old(self).cnt_ratio,
            final(self).next_phase == old(self).next_phase,
    {
        self.pmd = value;
    }

    /// Retune to another note, keeping phase and depth.
    pub fn change_note(&mut self, note: u8)
        requires
            old(self).wf(),
        ensures
            final(self).wf(),
            final(self).base_pitch == base_pitch_spec(
                old(self).prms_variable.coarse_tune as int,
                old(self).prms_variable.fine_tune as int, note as int),
            final(self).prms_variable == old(self).prms_variable,
            final(self).pmd == old(self).pmd,
            final(self).cnt_ratio == old(self).cnt_ratio,
            final(self).next_phase == old(self).next_phase,
    {
        self.base_pitch = calc_base_pitch(
            self.prms_variable.coarse_tune, self.prms_variable.fine_tune, note);
    }

    /// Apply a pitch offset in cents as the new bend ratio.
    pub fn change_pitch(&mut self, cnt_pitch: i32)
        requires
            old(self).wf(),
            -CENTS_LIMIT <= cnt_pitch <= CENTS_LIMIT,
        ensures
            final(self).wf(),
            final(self).cnt_ratio == cnt_pitch_spec(cnt_pitch as int),
            final(self).prms_variable == old(self).prms_variable,
            final(self).pmd == old(self).pmd,
            final(self).base_pitch == old(self).base_pitch,
            final(self).next_phase == old(self).next_phase,
    {
        self.cnt_ratio = calc_cnt_pitch(cnt_pitch);
    }

    /// Render one block: frame i gets the clipped wave value at the phase
    /// the modulated advance reaches before it, and the phase after the
    /// block stays inside one cycle.
    pub fn process(&mut self, abuf: &mut AudioFrame, lbuf: &CtrlFrame)
        requires
            old(self).wf(),
            old(abuf).wf(),
            lbuf.wf(),
            old(abuf).sample_number <= lbuf.sample_number * (AUDIO_FRAME_PER_CONTROL as int),
        ensures
            final(self).wf(),
            final(self).prms_variable == old(self).prms_variable,
            final(self).pmd == old(self).pmd,
            final(self).base_pitch == old(self).base_pitch,
            final(self).cnt_ratio == old(self).cnt_ratio,
            final(self).next_phase < PHASE_ONE,
            final(self).next_phase == phase_at_spec(
                old(self).next_phase as int,
                delta_phase_spec(old(self).base_pitch as int, old(self).cnt_ratio as int),
                old(self).pmd as int, lbuf.samples(), old(abuf).sample_number as int),
            final(abuf).wf(),
            final(abuf).capacity() == old(abuf).capacity(),
            final(abuf).sample_number == old(abuf).sample_number,
            final(abuf).cursor() == old(abuf).cursor(),
            forall|i: int| 0 <= i < old(abuf).sample_number
                ==> final(abuf).samples()[i] as int == clip_spec(wave_spec(
                        old(self).prms_variable.wv_type,
                        phase_at_spec(
                            old(self).next_phase as int,
                            delta_phase_spec(old(self).base_pitch as int, old(self).cnt_ratio as int),
                            old(self).pmd as int, lbuf.samples(), i),
                        max_overtone_spec(old(self).base_pitch as int))),
            forall|i: int| old(abuf).sample_number <= i < old(abuf).capacity()
                ==> final(abuf).samples()[i] == old(abuf).samples()[i],
    {
        let dp = calc_delta_phase(self.base_pitch, self.cnt_ratio);
        let mo = calc_max_overtone(self.base_pitch);
        let pmd = self.pmd;
        let wv = self.prms_variable.wv_type;
        let ghost p0: int = self.next_phase as int;
        let ghost dpg: int = dp as int;
        let ghost lseq: Seq<i32> = lbuf.samples();
        let ghost sn: int = abuf.sample_number as int;
        let mut phase = self.next_phase;
        let mut i: usize = 0;
        while i < abuf.sample_number
            invariant
                i <= abuf.sample_number,
                phase < PHASE_ONE,
                dp < PHASE_ONE,
                mo <= MAX_OVERTONE_GUARD,
                0 <= pmd <= 32768,
                lbuf.wf(),
                lseq == lbuf.samples(),
                abuf.sample_number <= lbuf.sample_number * (AUDIO_FRAME_PER_CONTROL as int),
                abuf.wf(),
                abuf.capacity() == old(abuf).capacity(),
                abuf.sample_number == old(abuf).sample_number,
                abuf.cursor() == old(abuf).cursor(),
                sn == abuf.sample_number as int,
                p0 == old(self).next_phase as int,
                dpg == dp as int,
                phase == phase_at_spec(p0, dpg, pmd as int, lseq, i as int),
                forall|k: int| 0 <= k < i
                    ==> abuf.samples()[k] as int == clip_spec(wave_spec(
                            wv, phase_at_spec(p0, dpg, pmd as int, lseq, k), mo as int)),
                forall|k: int| i <= k < old(abuf).capacity()
                    ==> abuf.samples()[k] == old(abuf).samples()[k],
            decreases abuf.sample_number - i,
        {
            let w = wave_value(wv, phase, mo);
            abuf.set_abuf(i, w);
            proof {
                assert(abuf.samples()[i as int] as int == clip_spec(w as int));
                assert(w as int == wave_spec(wv, phase_at_spec(p0, dpg, pmd as int, lseq, i as int), mo as int));
            }
            let l = lbuf.ctrl_for_audio(i);
            phase = osc_phase_step(phase, dp, l, pmd);
            proof {
                assert(phase_at_spec(p0, dpg, pmd as int, lseq, i + 1) == phase_step_spec(
                    phase_at_spec(p0, dpg, pmd as int, lseq, i as int), dpg,
                    lseq[(i as int) / (AUDIO_FRAME_PER_CONTROL as int)] as int, pmd as int));
            }
            i += 1;
        }
        self.next_phase = phase;
    }
}

} // verus!
