//! The fixed-point grids the simulation lives on, and the shared
//! arithmetic helpers: normalisation of angles to one turn, and the
//! truncating scaled step used to integrate motion.

use vstd::prelude::*;

verus! {

/// Length grid: this many sub-units make one world unit.
pub const SCALE: i64 = 1_200_000;

/// Time grid: this many ticks make one second.
pub const TICKS_PER_SEC: i64 = 60_000;

/// Angle grid: this many sub-turns make one full revolution.
pub const TURN: i64 = 1_000_000;

/// Half a revolution on the angle grid.
pub const HALF_TURN: i64 = 500_000;

/// A quarter revolution on the angle grid.
pub const QUARTER_TURN: i64 = 250_000;

/// Resting height of the player's centre: half a unit above the floor.
pub const INITIAL_Y: i64 = 600_000;

/// Peak extra height of a hop: one world unit.
pub const JUMP_HEIGHT: i64 = 1_200_000;

/// Duration of a hop in ticks (the half-sine period at ten radians
/// per second, rounded to an even number of ticks).
pub const JUMP_TICKS: i64 = 18_850;

/// Yaw rate while an arrow key is held: sub-turns per tick
/// (0.9 revolutions per second).
pub const ROT_RATE: i64 = 15;

/// Projectile speed in world units per second.
pub const BULLET_SPEED: i64 = 5;

/// Half-extent of the play area: projectiles beyond it are despawned
/// (16 world units, the radius of the ground disc).
pub const CULL_BOUND: i64 = 19_200_000;

/// Upper bound on the simulation clock, ample for any session.
pub const MAX_TICKS: i64 = 0x1_0000_0000_0000;

/// Upper bound on a single frame delta (one thousand seconds).
pub const MAX_FRAME_TICKS: i64 = 60_000_000;

/// A point or direction on the length grid.
#[derive(Clone, Copy, PartialEq, Eq, Structural, Debug)]
pub struct Vec3Fix {
    pub x: i64,
    pub y: i64,
    pub z: i64,
}

/// Ghost image of a `Vec3Fix` over the unbounded integers.
pub struct V3 {
    pub x: int,
    pub y: int,
    pub z: int,
}

impl View for Vec3Fix {
    type V = V3;

    open spec fn view(&self) -> V3 {
        V3 { x: self.x as int, y: self.y as int, z: self.z as int }
    }
}

/// An angle reduced to the canonical range `[0, TURN)`.
pub open spec fn norm_turn(v: int) -> int {
    v % (TURN as int)
}

/// Division rounding toward zero, the convention used when a velocity
/// is scaled down by the tick rate.
pub open spec fn tdiv(a: int, b: int) -> int {
    if a >= 0 {
        a / b
    } else {
        -((-a) / b)
    }
}

/// Displacement of one component over `dt` ticks at velocity `v`
/// sub-units per second.
pub open spec fn scaled_delta_spec(v: int, dt: int) -> int {
    tdiv(v * dt, TICKS_PER_SEC as int)
}

/// A frame's displacement is bounded by the velocity cap times the
/// frame cap.
pub proof fn lemma_scaled_delta_bounds(v: int, dt: int)
    requires
        -6_000_000 <= v <= 6_000_000,
        0 <= dt <= MAX_FRAME_TICKS,
    ensures
        -6_000_000_000 <= scaled_delta_spec(v, dt) <= 6_000_000_000,
{
    let p = v * dt;
    assert(-360_000_000_000_000 <= p <= 360_000_000_000_000) by (nonlinear_arith)
        requires
            p == v * dt,
            -6_000_000 <= v <= 6_000_000,
            0 <= dt <= 60_000_000,
    ;
    if p >= 0 {
        vstd::arithmetic::div_mod::lemma_div_is_ordered(0, p, TICKS_PER_SEC as int);
        vstd::arithmetic::div_mod::lemma_div_is_ordered(
            p,
            360_000_000_000_000int,
            TICKS_PER_SEC as int,
        );
        vstd::arithmetic::div_mod::lemma_basic_div(0, TICKS_PER_SEC as int);
    } else {
        vstd::arithmetic::div_mod::lemma_div_is_ordered(0, -p, TICKS_PER_SEC as int);
        vstd::arithmetic::div_mod::lemma_div_is_ordered(
            -p,
            360_000_000_000_000int,
            TICKS_PER_SEC as int,
        );
        vstd::arithmetic::div_mod::lemma_basic_div(0, TICKS_PER_SEC as int);
    }
}

/// Computes `scaled_delta_spec`: the exact scaled displacement.
pub fn scaled_delta(v: i64, dt: i64) -> (r: i64)
    requires
        -6_000_000 <= v <= 6_000_000,
        0 <= dt <= MAX_FRAME_TICKS,
    ensures
        r == scaled_delta_spec(v as int, dt as int),
        -6_000_000_000 <= r <= 6_000_000_000,
{
    proof {
        assert(v * dt <= 360_000_000_000_000 && v * dt >= -360_000_000_000_000)
            by (nonlinear_arith)
            requires
                -6_000_000 <= v <= 6_000_000,
                0 <= dt <= 60_000_000,
        ;
    }
    if v >= 0 {
        let p: i64 = v * dt;
        let r: i64 = p / TICKS_PER_SEC;
        proof {
            vstd::arithmetic::div_mod::lemma_div_is_ordered(
                p as int,
                360_000_000_000_000int,
                TICKS_PER_SEC as int,
            );
            vstd::arithmetic::div_mod::lemma_div_is_ordered(
                0int,
                p as int,
                TICKS_PER_SEC as int,
            );
        }
        r
    } else {
        proof {
            assert(0 <= (-v) * dt <= 360_000_000_000_000 && (-v) * dt == -(v * dt))
                by (nonlinear_arith)
                requires
                    -6_000_000 <= v < 0,
                    0 <= dt <= 60_000_000,
            ;
        }
        let p: i64 = (-v) * dt;
        let q: i64 = p / TICKS_PER_SEC;
        proof {
            vstd::arithmetic::div_mod::lemma_div_is_ordered(
                p as int,
                360_000_000_000_000int,
                TICKS_PER_SEC as int,
            );
            vstd::arithmetic::div_mod::lemma_div_is_ordered(
                0int,
                p as int,
                TICKS_PER_SEC as int,
            );
        }
        -q
    }
}

} // verus!
