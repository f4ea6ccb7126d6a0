//! Angles in 1/64 degree, and the spreading of a frame's 96 samples over
//! the sweep between its start angle and the next frame's.
use vstd::prelude::*;

use vstd::arithmetic::div_mod::{lemma_fundamental_div_mod, lemma_mod_multiples_vanish};

verus! {

/// One revolution in 1/64 degree.
pub const REVOLUTION_Q6: u32 = 23040;

/// The sweep from `previous` to `current`, modulo one revolution; never
/// negative.
pub open spec fn angle_diff_of(previous: int, current: int) -> int {
    (current - previous) % 23040
}

/// How far sample `sub` of cabin `cabin` lies past the start of a sweep of
/// `diff`: `diff * (cabin / 32 + sub / 96)`, rounded to the nearest unit,
/// halves up.
pub open spec fn sample_offset(diff: int, cabin: int, sub: int) -> int {
    (diff * (3 * cabin + sub) + 48) / 96
}

/// The angle of sample `sub` of cabin `cabin` in the sweep that begins at
/// `previous` and ends at `current`, modulo one revolution.
pub open spec fn sample_angle_of(previous: int, current: int, cabin: int, sub: int) -> int {
    (previous + sample_offset(angle_diff_of(previous, current), cabin, sub)) % 23040
}

/// The sweep from `previous` to `current`, modulo one revolution.
pub fn angle_diff_q6(previous: u16, current: u16) -> (r: u16)
    ensures
        r == angle_diff_of(previous as int, current as int),
        r < REVOLUTION_Q6,
{
    // Three revolutions exceed any u16, so the left side stays positive.
    let lifted: u32 = current as u32 + 3 * REVOLUTION_Q6 - previous as u32;
    proof {
        lemma_mod_multiples_vanish(3, current - previous, 23040);
    }
    (lifted % REVOLUTION_Q6) as u16
}

/// The angle of sample `sub` (0 to 2) of cabin `cabin` (0 to 31) of the
/// frame that starts at `previous`, where the next frame starts at
/// `current`.
pub fn sample_angle_q6(previous: u16, current: u16, cabin: usize, sub: usize) -> (r: u16)
    requires
        cabin < 32,
        sub < 3,
    ensures
        r == sample_angle_of(previous as int, current as int, cabin as int, sub as int),
        r < REVOLUTION_Q6,
{
    let diff = angle_diff_q6(previous, current) as u32;
    let step = 3 * cabin as u32 + sub as u32;
    assert(diff * step <= 23039 * 95) by (nonlinear_arith)
        requires
            diff < 23040,
            step <= 95,
    ;
    let offset = (diff * step + 48) / 96;
    ((previous as u32 + offset) % REVOLUTION_Q6) as u16
}

/// Every sample of a sweep lies within it: past the sweep's start, by no
/// more than the sweep itself, modulo one revolution.
pub proof fn lemma_sample_angle_in_sweep(previous: u16, current: u16, cabin: int, sub: int)
    requires
        0 <= cabin < 32,
        0 <= sub < 3,
    ensures
        0 <= sample_offset(angle_diff_of(previous as int, current as int), cabin, sub)
            <= angle_diff_of(previous as int, current as int),
        (sample_angle_of(previous as int, current as int, cabin, sub) - previous) % 23040
            == sample_offset(angle_diff_of(previous as int, current as int), cabin, sub),
{
    let diff = angle_diff_of(previous as int, current as int);
    let step = 3 * cabin + sub;
    let offset = sample_offset(diff, cabin, sub);
    assert(0 <= diff * step <= diff * 95) by (nonlinear_arith)
        requires
            0 <= diff,
            0 <= step <= 95,
    ;
    assert(0 <= offset <= diff) by (nonlinear_arith)
        requires
            offset == (diff * step + 48) / 96,
            0 <= diff * step <= diff * 95,
            0 <= diff,
    ;
    let total = previous + offset;
    lemma_fundamental_div_mod(total, 23040);
    lemma_mod_multiples_vanish(-(total / 23040), offset, 23040);
}

} // verus!
