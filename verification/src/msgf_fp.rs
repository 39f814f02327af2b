//
//  msgf_fp.rs
//  Musical Sound Generator Framework
//      Fixed-point helpers
//
//  Q15 and Q16 products are formed in 64 bits and scaled back down with a
//  division that truncates toward zero, the same on either side of zero.
//
use vstd::prelude::*;

verus! {

/// Division truncating toward zero (the spec-level `/` rounds toward
/// negative infinity instead); d must be positive.
pub open spec fn tdiv(v: int, d: int) -> int {
    if v >= 0 {
        v / d
    } else {
        -((-v) / d)
    }
}

/// Scale a Q15 product back down: tdiv(v, 32768).
pub open spec fn q15(v: int) -> int {
    tdiv(v, 32768)
}

/// Scale a Q16 product back down: tdiv(v, 65536).
pub open spec fn q16(v: int) -> int {
    tdiv(v, 65536)
}

/// 64-bit division truncating toward zero.
pub fn tdiv64(v: i64, d: i64) -> (r: i64)
    requires
        d > 0,
        v > i64::MIN,
    ensures
        r == tdiv(v as int, d as int),
        v >= 0 ==> 0 <= r <= v,
        v < 0 ==> v <= r <= 0,
{
    if v >= 0 {
        let q = (v as u64) / (d as u64);
        q as i64
    } else {
        let q = ((-v) as u64) / (d as u64);
        -(q as i64)
    }
}

/// Truncating division of a Q15 product.
pub fn q15_div(v: i64) -> (r: i64)
    requires
        v > i64::MIN,
    ensures
        r == q15(v as int),
        v >= 0 ==> 0 <= r <= v,
        v < 0 ==> v <= r <= 0,
{
    tdiv64(v, 32768)
}

/// Truncating division of a Q16 product.
pub fn q16_div(v: i64) -> (r: i64)
    requires
        v > i64::MIN,
    ensures
        r == q16(v as int),
        v >= 0 ==> 0 <= r <= v,
        v < 0 ==> v <= r <= 0,
{
    tdiv64(v, 65536)
}

/// Product of two bounded 64-bit values; the bounds keep it inside i64.
pub fn mul64(a: i64, b: i64) -> (r: i64)
    requires
        -0x8000_0000 <= a <= 0x8000_0000,
        -0x8000_0000 <= b <= 0x8000_0000,
    ensures
        r == a * b,
        -0x4000_0000_0000_0000 <= r <= 0x4000_0000_0000_0000,
{
    proof {
        assert(-0x4000_0000_0000_0000 <= a as int * b as int <= 0x4000_0000_0000_0000) by (nonlinear_arith)
            requires
                -0x8000_0000 <= a as int <= 0x8000_0000,
                -0x8000_0000 <= b as int <= 0x8000_0000,
        {}
    }
    a * b
}

/// Product with caller-supplied bounds, for tight overflow reasoning.
pub fn mul64b(a: i64, b: i64, ab: i64, bb: i64) -> (r: i64)
    requires
        0 <= ab <= 0x8000_0000,
        0 <= bb <= 0x8000_0000,
        -ab <= a <= ab,
        -bb <= b <= bb,
    ensures
        r == a * b,
        -(ab * bb) <= r <= ab * bb,
{
    proof {
        assert(-(ab * bb) <= a * b <= ab * bb) by (nonlinear_arith)
            requires
                -ab <= a <= ab,
                -bb <= b <= bb,
                0 <= ab,
                0 <= bb,
        {}
        assert(ab * bb <= 0x4000_0000_0000_0000) by (nonlinear_arith)
            requires
                0 <= ab <= 0x8000_0000,
                0 <= bb <= 0x8000_0000,
        {}
    }
    a * b
}

/// tdiv keeps the magnitude within |v| / d rounded down.
pub proof fn lemma_tdiv_bound(v: int, d: int, bound: int)
    requires
        d > 0,
        -bound <= v <= bound,
        0 <= bound,
    ensures
        -(bound / d) <= tdiv(v, d) <= bound / d,
{
    if v >= 0 {
        vstd::arithmetic::div_mod::lemma_div_is_ordered(v, bound, d);
        vstd::arithmetic::div_mod::lemma_div_pos_is_pos(v, d);
    } else {
        vstd::arithmetic::div_mod::lemma_div_is_ordered(-v, bound, d);
        vstd::arithmetic::div_mod::lemma_div_pos_is_pos(-v, d);
    }
}

/// Like lemma_tdiv_bound, for a divisor only known to be at least dmin.
pub proof fn lemma_tdiv_bound4(v: int, d: int, dmin: int, bound: int)
    requires
        0 < dmin <= d,
        -bound <= v <= bound,
        0 <= bound,
    ensures
        -(bound / dmin) <= tdiv(v, d) <= bound / dmin,
{
    if v >= 0 {
        vstd::arithmetic::div_mod::lemma_div_is_ordered_by_denominator(v, dmin, d);
        vstd::arithmetic::div_mod::lemma_div_is_ordered(v, bound, dmin);
        vstd::arithmetic::div_mod::lemma_div_pos_is_pos(v, d);
    } else {
        vstd::arithmetic::div_mod::lemma_div_is_ordered_by_denominator(-v, dmin, d);
        vstd::arithmetic::div_mod::lemma_div_is_ordered(-v, bound, dmin);
        vstd::arithmetic::div_mod::lemma_div_pos_is_pos(-v, d);
    }
}

/// Scaling by num/den with num <= den never grows the magnitude and
/// keeps the sign.
pub proof fn lemma_tdiv_scale_le(v: int, num: int, den: int)
    requires
        0 <= num <= den,
        0 < den,
    ensures
        v >= 0 ==> 0 <= tdiv(v * num, den) <= v,
        v < 0 ==> v <= tdiv(v * num, den) <= 0,
{
    if v >= 0 {
        assert(0 <= v * num <= v * den) by (nonlinear_arith)
            requires
                v >= 0,
                0 <= num <= den,
        {}
        vstd::arithmetic::div_mod::lemma_div_is_ordered(v * num, v * den, den);
        vstd::arithmetic::div_mod::lemma_div_multiples_vanish(v, den);
        assert(v * den == den * v) by (nonlinear_arith) {}
        vstd::arithmetic::div_mod::lemma_div_pos_is_pos(v * num, den);
    } else {
        let w = -v;
        assert(0 <= w * num <= w * den) by (nonlinear_arith)
            requires
                w >= 0,
                0 <= num <= den,
        {}
        vstd::arithmetic::div_mod::lemma_div_is_ordered(w * num, w * den, den);
        vstd::arithmetic::div_mod::lemma_div_multiples_vanish(w, den);
        assert(w * den == den * w) by (nonlinear_arith) {}
        vstd::arithmetic::div_mod::lemma_div_pos_is_pos(w * num, den);
        assert((w * den) / den == w);
        assert(-(v * num) == w * num) by (nonlinear_arith)
            requires
                w == -v,
        {}
    }
}

} // verus!
