//! Sine on the fixed-point grids, built from an exact rational
//! half-wave kernel (`16 s (1 - s) / (5 - 4 s (1 - s))` for the phase
//! fraction `s` of the half period). The kernel needs no irrational
//! constant, is exact at the quarter points, and stays within a fifth
//! of a percent of the true sine in between, which keeps every jump
//! and aiming computation in plain integers.

use vstd::prelude::*;
use crate::units::{HALF_TURN, QUARTER_TURN, SCALE, TURN, norm_turn};

verus! {

/// Value of the half-wave kernel at phase `n` of `d`, scaled by
/// `SCALE`: zero at both ends, exactly `SCALE` at the middle.
pub open spec fn sin_half_spec(n: int, d: int) -> int {
    (16 * n * (d - n) * SCALE) / (5 * d * d - 4 * (n * (d - n)))
}

/// The kernel never leaves `[0, SCALE]` on its half period.
pub proof fn lemma_sin_half_bounds(n: int, d: int)
    requires
        0 < d,
        0 <= n <= d,
    ensures
        0 <= sin_half_spec(n, d) <= SCALE,
{
    let num = 16 * n * (d - n) * SCALE;
    let den = 5 * d * d - 4 * (n * (d - n));
    assert(0 <= num && 0 < num + 1 <= den + num && 0 < den && num <= SCALE * den)
        by (nonlinear_arith)
        requires
            0 < d,
            0 <= n <= d,
            num == 16 * n * (d - n) * SCALE,
            den == 5 * d * d - 4 * (n * (d - n)),
    ;
    vstd::arithmetic::div_mod::lemma_div_is_ordered(0, num, den);
    vstd::arithmetic::div_mod::lemma_basic_div(0, den);
    vstd::arithmetic::div_mod::lemma_div_is_ordered(num, SCALE * den, den);
    vstd::arithmetic::div_mod::lemma_div_by_multiple(SCALE as int, den);
    assert((SCALE * den) / den == SCALE);
}

/// The kernel is exactly `SCALE` at the middle of the half period.
pub proof fn lemma_sin_half_apex(d: int)
    requires
        0 < d,
        d % 2 == 0,
    ensures
        sin_half_spec(d / 2, d) == SCALE,
{
    let n = d / 2;
    assert(2 * n == d);
    assert(16 * n * (d - n) * SCALE == SCALE * (16 * (n * n))
        && 5 * d * d - 4 * (n * (d - n)) == 16 * (n * n)
        && 0 < 16 * (n * n)) by (nonlinear_arith)
        requires
            2 * n == d,
            0 < d,
    ;
    vstd::arithmetic::div_mod::lemma_div_by_multiple(SCALE as int, 16 * (n * n));
}

/// The kernel vanishes at both ends of the half period.
pub proof fn lemma_sin_half_ends(d: int)
    requires
        0 < d,
    ensures
        sin_half_spec(0, d) == 0,
        sin_half_spec(d, d) == 0,
{
    assert(16 * 0 * (d - 0) * SCALE == 0 && 16 * d * (d - d) * SCALE == 0
        && 5 * d * d - 4 * (0 * (d - 0)) == 5 * (d * d)
        && 5 * d * d - 4 * (d * (d - d)) == 5 * (d * d)
        && 0 < 5 * (d * d)) by (nonlinear_arith)
        requires
            0 < d,
    ;
    vstd::arithmetic::div_mod::lemma_basic_div(0, 5 * (d * d));
}

/// Computes the half-wave kernel exactly as `sin_half_spec` states it.
pub fn sin_half(n: i64, d: i64) -> (r: i64)
    requires
        0 < d <= 1_000_000,
        0 <= n <= d,
    ensures
        r == sin_half_spec(n as int, d as int),
        0 <= r <= SCALE,
{
    proof {
        assert(0 <= n * (d - n) && 4 * (n * (d - n)) <= d * d && 1 <= d * d <= 1_000_000_000_000)
            by (nonlinear_arith)
            requires
                0 < d <= 1_000_000,
                0 <= n <= d,
        ;
    }
    let m: i64 = n * (d - n);
    let dd: i64 = d * d;
    proof {
        assert((16 * m) * SCALE == 16 * n * (d - n) * SCALE
            && 0 <= (16 * m) * SCALE <= 4_800_000_000_000_000_000) by (nonlinear_arith)
            requires
                m == n * (d - n),
                0 <= m,
                4 * m <= d * d,
                d * d <= 1_000_000_000_000,
        ;
    }
    let num: i64 = (16 * m) * SCALE;
    let den: i64 = 5 * dd - 4 * m;
    proof {
        assert(5 * dd - 4 * m == 5 * d * d - 4 * (n * (d - n))) by (nonlinear_arith)
            requires
                m == n * (d - n),
                dd == d * d,
        ;
        lemma_sin_half_bounds(n as int, d as int);
    }
    num / den
}

/// Sine of an angle on the turn grid, scaled by `SCALE`: the first
/// half turn is the positive half wave, the second the negative one.
pub open spec fn sin_turn_spec(u: int) -> int {
    if u <= HALF_TURN {
        sin_half_spec(u, HALF_TURN as int)
    } else {
        -sin_half_spec(u - HALF_TURN, HALF_TURN as int)
    }
}

/// Cosine on the turn grid: the sine a quarter turn ahead.
pub open spec fn cos_turn_spec(u: int) -> int {
    sin_turn_spec(norm_turn(u + QUARTER_TURN))
}

/// Computes `sin_turn_spec` for a normalised angle.
pub fn sin_turn(u: i64) -> (r: i64)
    requires
        0 <= u < TURN,
    ensures
        r == sin_turn_spec(u as int),
        -SCALE <= r <= SCALE,
{
    if u <= HALF_TURN {
        sin_half(u, HALF_TURN)
    } else {
        let s: i64 = sin_half(u - HALF_TURN, HALF_TURN);
        -s
    }
}

/// Computes `cos_turn_spec` for a normalised angle.
pub fn cos_turn(u: i64) -> (r: i64)
    requires
        0 <= u < TURN,
    ensures
        r == cos_turn_spec(u as int),
        -SCALE <= r <= SCALE,
{
    let shifted: i64 = if u + QUARTER_TURN >= TURN {
        u + QUARTER_TURN - TURN
    } else {
        u + QUARTER_TURN
    };
    proof {
        if u + QUARTER_TURN >= TURN {
            vstd::arithmetic::div_mod::lemma_mod_sub_multiples_vanish(
                u + QUARTER_TURN,
                TURN as int,
            );
        }
        vstd::arithmetic::div_mod::lemma_small_mod((shifted) as nat, TURN as nat);
    }
    sin_turn(shifted)
}

/// The four quarter points of the turn are exact: sine runs through
/// `0, SCALE, 0, -SCALE` and cosine through `SCALE, 0, -SCALE, 0`.
pub proof fn lemma_quarter_points()
    ensures
        sin_turn_spec(0) == 0,
        sin_turn_spec(QUARTER_TURN as int) == SCALE,
        sin_turn_spec(HALF_TURN as int) == 0,
        sin_turn_spec(3 * QUARTER_TURN) == -SCALE,
        cos_turn_spec(0) == SCALE,
        cos_turn_spec(QUARTER_TURN as int) == 0,
        cos_turn_spec(HALF_TURN as int) == -SCALE,
        cos_turn_spec(3 * QUARTER_TURN) == 0,
{
    lemma_sin_half_ends(HALF_TURN as int);
    lemma_sin_half_apex(HALF_TURN as int);
    assert(HALF_TURN / 2 == QUARTER_TURN);
    vstd::arithmetic::div_mod::lemma_small_mod(QUARTER_TURN as nat, TURN as nat);
    vstd::arithmetic::div_mod::lemma_small_mod(HALF_TURN as nat, TURN as nat);
    vstd::arithmetic::div_mod::lemma_small_mod((3 * QUARTER_TURN) as nat, TURN as nat);
    vstd::arithmetic::div_mod::lemma_mod_self_0(TURN as int);
    assert(norm_turn(0 + QUARTER_TURN) == QUARTER_TURN);
    assert(norm_turn(QUARTER_TURN + QUARTER_TURN) == HALF_TURN);
    assert(norm_turn(HALF_TURN + QUARTER_TURN) == 3 * QUARTER_TURN);
    assert(norm_turn(3 * QUARTER_TURN + QUARTER_TURN) == 0);
}

} // verus!
