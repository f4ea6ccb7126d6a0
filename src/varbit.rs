//! The variable-bit-scale code: a 12-bit magnitude mapped piecewise
//! linearly onto a wider distance, together with the shift ("scale
//! level") of the band it fell in.
use vstd::prelude::*;

verus! {

/// The scale level of the band that `s` falls in: bands start at
/// 3328, 1792, 1280, 512 and 0 in the scaled domain.
pub open spec fn scale_level_of(s: int) -> int {
    if s >= 3328 {
        4
    } else if s >= 1792 {
        3
    } else if s >= 1280 {
        2
    } else if s >= 512 {
        1
    } else {
        0
    }
}

/// The decoded value of `s`: the band's target base plus the distance
/// from the band's scaled base, shifted by the band's scale level.
pub open spec fn decoded_value_of(s: int) -> int {
    if s >= 3328 {
        0x4000 + (s - 3328) * 16
    } else if s >= 1792 {
        0x1000 + (s - 1792) * 8
    } else if s >= 1280 {
        0x800 + (s - 1280) * 4
    } else if s >= 512 {
        0x200 + (s - 512) * 2
    } else {
        s
    }
}

/// Decodes a variable-bit-scale magnitude into `(value, scale_level)`.
pub fn varbitscale_decode(scaled: u32) -> (r: (u32, u32))
    requires
        decoded_value_of(scaled as int) <= u32::MAX,
    ensures
        r.0 == decoded_value_of(scaled as int),
        r.1 == scale_level_of(scaled as int),
{
    if scaled >= 3328 {
        let d = scaled - 3328;
        proof {
            lemma_shl_is_mul(d, 4);
        }
        (0x4000 + (d << 4u32), 4)
    } else if scaled >= 1792 {
        let d = scaled - 1792;
        proof {
            lemma_shl_is_mul(d, 3);
        }
        (0x1000 + (d << 3u32), 3)
    } else if scaled >= 1280 {
        let d = scaled - 1280;
        proof {
            lemma_shl_is_mul(d, 2);
        }
        (0x800 + (d << 2u32), 2)
    } else if scaled >= 512 {
        let d = scaled - 512;
        proof {
            lemma_shl_is_mul(d, 1);
        }
        (0x200 + (d << 1u32), 1)
    } else {
        (scaled, 0)
    }
}

/// Decoding is monotone: a larger magnitude never decodes to a smaller
/// value, and never falls in a band of a smaller scale level.
pub proof fn lemma_decode_monotonic(a: u32, b: u32)
    requires
        a <= b,
    ensures
        decoded_value_of(a as int) <= decoded_value_of(b as int),
        scale_level_of(a as int) <= scale_level_of(b as int),
{
}

/// A 12-bit magnitude decodes to at most 28656, at a scale level of at
/// most four; only zero decodes to zero.
pub proof fn lemma_decode_bounds(s: int)
    requires
        0 <= s <= 0xfff,
    ensures
        0 <= decoded_value_of(s) <= 28656,
        0 <= scale_level_of(s) <= 4,
        decoded_value_of(s) == 0 <==> s == 0,
{
}

/// A left shift by at most four places that does not overflow is a
/// multiplication by the matching power of two.
proof fn lemma_shl_is_mul(d: u32, k: u32)
    requires
        k <= 4,
        d <= 0x0fff_ffff,
    ensures
        k == 4 ==> d << k == d * 16,
        k == 3 ==> d << k == d * 8,
        k == 2 ==> d << k == d * 4,
        k == 1 ==> d << k == d * 2,
{
    assert(k == 4 ==> d << k == d * 16) by (bit_vector)
        requires
            d <= 0x0fff_ffff,
    ;
    assert(k == 3 ==> d << k == d * 8) by (bit_vector)
        requires
            d <= 0x0fff_ffff,
    ;
    assert(k == 2 ==> d << k == d * 4) by (bit_vector)
        requires
            d <= 0x0fff_ffff,
    ;
    assert(k == 1 ==> d << k == d * 2) by (bit_vector)
        requires
            d <= 0x0fff_ffff,
    ;
}

} // verus!
