//! A cabin: one 32-bit word that packs a 12-bit anchor magnitude and two
//! signed 10-bit predictive offsets, giving three distance samples.
use vstd::prelude::*;

use crate::varbit::{
    decoded_value_of, lemma_decode_bounds, scale_level_of, varbitscale_decode,
};

verus! {

/// Reads a 10-bit field as a two's complement number.
pub open spec fn sign_extend10(f: int) -> int {
    if f >= 512 {
        f - 1024
    } else {
        f
    }
}

/// The anchor magnitude: the low twelve bits of a cabin.
pub open spec fn major_of(cabin: u32) -> int {
    (cabin & 0xfff) as int
}

/// The first predictive offset: bits 12 to 21 of a cabin, signed.
pub open spec fn predict1_of(cabin: u32) -> int {
    sign_extend10(((cabin >> 12u32) & 0x3ff) as int)
}

/// The second predictive offset: bits 22 to 31 of a cabin, signed.
pub open spec fn predict2_of(cabin: u32) -> int {
    sign_extend10((cabin >> 22u32) as int)
}

/// The offsets that mark a slot without a valid return (the bit
/// patterns 0x1FF and 0xFFFFFE00).
pub open spec fn is_sentinel(predict: int) -> bool {
    predict == 511 || predict == -512
}

/// Two to the power of a scale level.
pub open spec fn scale_factor(level: int) -> int {
    if level == 4 {
        16
    } else if level == 3 {
        8
    } else if level == 2 {
        4
    } else if level == 1 {
        2
    } else {
        1
    }
}

/// An integer read back as a `u32`, modulo 2^32.
pub open spec fn wrap_u32(x: int) -> int {
    x % 0x1_0000_0000
}

/// A predicted sample in quarter millimetres: zero for a sentinel,
/// otherwise the base plus the offset scaled by the level, times four.
pub open spec fn predicted_distance(base: int, level: int, predict: int) -> int {
    if is_sentinel(predict) {
        0
    } else {
        wrap_u32((base + predict * scale_factor(level)) * 4)
    }
}

/// The anchor sample of a cabin, in quarter millimetres.
pub open spec fn anchor_distance(cabin: u32) -> int {
    decoded_value_of(major_of(cabin)) * 4
}

/// The sample predicted by the first offset. It is anchored on the
/// cabin's own magnitude, or on the next cabin's where the own one is zero
/// and the next one is not.
pub open spec fn first_predicted_distance(cabin: u32, next_cabin: u32) -> int {
    let v1 = decoded_value_of(major_of(cabin));
    let v2 = decoded_value_of(major_of(next_cabin));
    if v1 == 0 && v2 != 0 {
        predicted_distance(v2, scale_level_of(major_of(next_cabin)), predict1_of(cabin))
    } else {
        predicted_distance(v1, scale_level_of(major_of(cabin)), predict1_of(cabin))
    }
}

/// The sample predicted by the second offset, anchored on the next
/// cabin's magnitude.
pub open spec fn second_predicted_distance(cabin: u32, next_cabin: u32) -> int {
    predicted_distance(
        decoded_value_of(major_of(next_cabin)),
        scale_level_of(major_of(next_cabin)),
        predict2_of(cabin),
    )
}

/// Applies a predictive offset to a base distance.
fn apply_prediction(base: u32, level: u32, predict: i32) -> (r: u32)
    requires
        base <= 28656,
        level <= 4,
        -512 <= predict <= 511,
        !is_sentinel(predict as int),
    ensures
        r == predicted_distance(base as int, level as int, predict as int),
{
    let factor: i32 = if level == 4 {
        16
    } else if level == 3 {
        8
    } else if level == 2 {
        4
    } else if level == 1 {
        2
    } else {
        1
    };
    let quarter: i32 = (base as i32 + predict * factor) * 4;
    if quarter >= 0 {
        quarter as u32
    } else {
        (quarter as i64 + 0x1_0000_0000i64) as u32
    }
}

/// Decodes the three samples of `cabin`, in quarter millimetres, in the
/// order anchor, first prediction, second prediction. `next_cabin` is the
/// cabin that follows it in the stream.
pub fn decode_cabin(cabin: u32, next_cabin: u32) -> (r: [u32; 3])
    ensures
        r@.len() == 3,
        r[0] == anchor_distance(cabin),
        r[1] == first_predicted_distance(cabin, next_cabin),
        r[2] == second_predicted_distance(cabin, next_cabin),
        is_sentinel(predict1_of(cabin)) ==> r[1] == 0,
        is_sentinel(predict2_of(cabin)) ==> r[2] == 0,
{
    let major1 = cabin & 0xfff;
    let major2 = next_cabin & 0xfff;
    let field1 = (cabin >> 12u32) & 0x3ff;
    let field2 = cabin >> 22u32;
    assert(major1 <= 0xfff && major2 <= 0xfff) by (bit_vector)
        requires
            major1 == cabin & 0xfff,
            major2 == next_cabin & 0xfff,
    ;
    assert(field1 <= 0x3ff && field2 <= 0x3ff) by (bit_vector)
        requires
            field1 == (cabin >> 12u32) & 0x3ff,
            field2 == cabin >> 22u32,
    ;
    proof {
        lemma_decode_bounds(major1 as int);
        lemma_decode_bounds(major2 as int);
    }
    let (dist_major1, level1) = varbitscale_decode(major1);
    let (dist_major2, level2) = varbitscale_decode(major2);
    let predict1: i32 = if field1 >= 512 {
        field1 as i32 - 1024
    } else {
        field1 as i32
    };
    let predict2: i32 = if field2 >= 512 {
        field2 as i32 - 1024
    } else {
        field2 as i32
    };

    let mut base1 = dist_major1;
    let mut base_level1 = level1;
    if dist_major1 == 0 && dist_major2 != 0 {
        base1 = dist_major2;
        base_level1 = level2;
    }

    let mut out = [0u32; 3];
    out[0] = dist_major1 * 4;
    if predict1 != -512 && predict1 != 511 {
        out[1] = apply_prediction(base1, base_level1, predict1);
    }
    if predict2 != -512 && predict2 != 511 {
        out[2] = apply_prediction(dist_major2, level2, predict2);
    }
    out
}

} // verus!
