//! The player cube: its jump attribute, the per-frame jump system that
//! triggers and advances the half-sine hop, and the per-frame rotation
//! system that yaws the cube while an arrow key is held.

use vstd::prelude::*;
use crate::trig::{lemma_sin_half_apex, sin_half, sin_half_spec};
use crate::units::{
    CULL_BOUND, INITIAL_Y, JUMP_HEIGHT, JUMP_TICKS, MAX_FRAME_TICKS, MAX_TICKS, ROT_RATE, SCALE,
    TURN, Vec3Fix, norm_turn,
};

verus! {

/// The jump attribute carried by the player: whether a hop is in
/// flight and the tick at which it started.
#[derive(Clone, Copy, PartialEq, Eq, Structural, Debug)]
pub struct JumpState {
    pub jump_init: i64,
    pub is_jump: bool,
}

/// The player's full per-frame state: position, yaw about world +Y,
/// and the jump attribute.
#[derive(Clone, Copy, PartialEq, Eq, Structural, Debug)]
pub struct PlayerState {
    pub pos: Vec3Fix,
    pub yaw: i64,
    pub jump: JumpState,
}

impl PlayerState {
    /// Well-formedness at clock `now`: the yaw is canonical, the
    /// start of a hop in flight lies in the past, the height is the
    /// rest height when idle and within the hop band when airborne,
    /// and the cube stands inside the play area.
    pub open spec fn wf(self, now: int) -> bool {
        &&& 0 <= self.yaw < TURN
        &&& 0 <= self.jump.jump_init
        &&& self.jump.is_jump ==> self.jump.jump_init <= now
        &&& self.jump.is_jump ==> INITIAL_Y <= self.pos.y <= INITIAL_Y + JUMP_HEIGHT
        &&& !self.jump.is_jump ==> self.pos.y == INITIAL_Y
        &&& -CULL_BOUND <= self.pos.x <= CULL_BOUND
        &&& -CULL_BOUND <= self.pos.z <= CULL_BOUND
    }
}

/// Height of the hop `tau` ticks after takeoff: the rest height plus
/// the half-wave, scaled to `JUMP_HEIGHT`.
pub open spec fn jump_y_spec(tau: int) -> int {
    INITIAL_Y + (JUMP_HEIGHT * sin_half_spec(tau, JUMP_TICKS as int)) / (SCALE as int)
}

/// A hop is in flight and still inside its window at `now`.
pub open spec fn jump_active(j: JumpState, now: int) -> bool {
    j.is_jump && now - j.jump_init <= JUMP_TICKS
}

/// A hop is in flight but its window has passed at `now`.
pub open spec fn jump_landed(j: JumpState, now: int) -> bool {
    j.is_jump && now - j.jump_init > JUMP_TICKS
}

/// The jump attribute after one frame at `now`: a hop past its window
/// is cleared first, then a press starts a new hop only if none is in
/// flight.
pub open spec fn jump_step_jump(j: JumpState, now: int, space: bool) -> JumpState {
    let after = if jump_landed(j, now) {
        JumpState { jump_init: j.jump_init, is_jump: false }
    } else {
        j
    };
    if space && !after.is_jump {
        JumpState { jump_init: now as i64, is_jump: true }
    } else {
        after
    }
}

/// The player's height after one frame at `now`: on the half-sine
/// while the hop is inside its window, clamped back to the rest
/// height when the window has passed, untouched otherwise.
pub open spec fn jump_step_y(j: JumpState, y: int, now: int) -> int {
    if jump_active(j, now) {
        jump_y_spec(now - j.jump_init)
    } else if jump_landed(j, now) {
        INITIAL_Y as int
    } else {
        y
    }
}

/// One frame of the jump system at clock `now`. Advances (and, past
/// the window, clears) a hop in flight, then lets a rising edge of
/// the jump key start a new hop; only the height is written, never
/// the ground-plane position or the yaw.
pub fn jump_system(player: &mut PlayerState, now: i64, space_edge: bool)
    requires
        old(player).wf(now as int),
        0 <= now <= MAX_TICKS,
    ensures
        final(player).wf(now as int),
        final(player).pos.x == old(player).pos.x,
        final(player).pos.z == old(player).pos.z,
        final(player).yaw == old(player).yaw,
        final(player).jump == jump_step_jump(old(player).jump, now as int, space_edge),
        final(player).pos.y == jump_step_y(old(player).jump, old(player).pos.y as int, now as int),
{
    if player.jump.is_jump {
        let tau: i64 = now - player.jump.jump_init;
        if tau <= JUMP_TICKS {
            let s: i64 = sin_half(tau, JUMP_TICKS);
            let lift: i64 = (JUMP_HEIGHT * s) / SCALE;
            proof {
                vstd::arithmetic::div_mod::lemma_div_is_ordered(
                    0,
                    JUMP_HEIGHT * s,
                    SCALE as int,
                );
                vstd::arithmetic::div_mod::lemma_basic_div(0, SCALE as int);
                vstd::arithmetic::div_mod::lemma_div_is_ordered(
                    JUMP_HEIGHT * s,
                    JUMP_HEIGHT * SCALE,
                    SCALE as int,
                );
                vstd::arithmetic::div_mod::lemma_div_by_multiple(
                    JUMP_HEIGHT as int,
                    SCALE as int,
                );
            }
            player.pos.y = INITIAL_Y + lift;
        } else {
            player.pos.y = INITIAL_Y;
            player.jump.is_jump = false;
        }
    }
    if space_edge && !player.jump.is_jump {
        player.jump.is_jump = true;
        player.jump.jump_init = now;
    }
}

/// The jump and height outcome of a run of frames at the given
/// clocks, none of them with the jump key pressed.
pub open spec fn run_jump_spec(j: JumpState, y: int, times: Seq<int>) -> (JumpState, int)
    decreases times.len(),
{
    if times.len() == 0 {
        (j, y)
    } else {
        run_jump_spec(
            jump_step_jump(j, times[0], false),
            jump_step_y(j, y, times[0]),
            times.drop_first(),
        )
    }
}

/// An idle player stays exactly where it is through any run of
/// frames with no press.
pub proof fn lemma_jump_idle_fixed(j: JumpState, y: int, times: Seq<int>)
    requires
        !j.is_jump,
    ensures
        run_jump_spec(j, y, times) == (j, y),
    decreases times.len(),
{
    if times.len() > 0 {
        lemma_jump_idle_fixed(j, y, times.drop_first());
    }
}

/// A hop lasts at most its window: at every frame strictly past
/// `jump_init + JUMP_TICKS`, with no further press, the hop flag is
/// down and the player stands at the rest height.
pub proof fn lemma_jump_bounded_duration(j: JumpState, y: int, times: Seq<int>)
    requires
        j.is_jump,
        times.len() >= 1,
        forall|i: int| 0 <= i < times.len() ==> #[trigger] times[i] > j.jump_init + JUMP_TICKS,
    ensures
        !run_jump_spec(j, y, times).0.is_jump,
        run_jump_spec(j, y, times).1 == INITIAL_Y,
    decreases times.len(),
{
    let j1 = jump_step_jump(j, times[0], false);
    let y1 = jump_step_y(j, y, times[0]);
    assert(!j1.is_jump && y1 == INITIAL_Y);
    lemma_jump_idle_fixed(j1, y1, times.drop_first());
}

/// At the last instant of the window the half-wave has fully come
/// down: the height is already the rest height, one frame before the
/// flag clears.
pub proof fn lemma_jump_window_end()
    ensures
        jump_y_spec(JUMP_TICKS as int) == INITIAL_Y,
{
    crate::trig::lemma_sin_half_ends(JUMP_TICKS as int);
    vstd::arithmetic::div_mod::lemma_basic_div(0, SCALE as int);
}

/// The apex: halfway through its window the hop stands exactly
/// `JUMP_HEIGHT` above the rest height.
pub proof fn lemma_jump_apex()
    ensures
        jump_y_spec(JUMP_TICKS as int / 2) == INITIAL_Y + JUMP_HEIGHT,
{
    lemma_sin_half_apex(JUMP_TICKS as int);
    vstd::arithmetic::div_mod::lemma_div_by_multiple(JUMP_HEIGHT as int, SCALE as int);
}

/// Single-jump lockout: a second press inside the window of a hop
/// started at `t0` changes neither the flag nor the start time.
pub proof fn lemma_single_jump_lockout(j: JumpState, t0: int, t1: int)
    requires
        !j.is_jump,
        0 <= t0 <= MAX_TICKS,
        0 < t1 - t0 <= JUMP_TICKS,
    ensures
        ({
            let first = jump_step_jump(j, t0, true);
            let second = jump_step_jump(first, t1, true);
            &&& first.is_jump
            &&& first.jump_init == t0
            &&& second.is_jump
            &&& second.jump_init == t0
        }),
{
}

/// Net yaw change over `dt` ticks from the held arrow keys; the two
/// directions cancel when both are held.
pub open spec fn rot_delta(dt: int, left: bool, right: bool) -> int {
    (if left {
        ROT_RATE * dt
    } else {
        0
    }) - (if right {
        ROT_RATE * dt
    } else {
        0
    })
}

/// The yaw after one frame of rotation, reduced to one turn.
pub open spec fn rotate_yaw_spec(yaw: int, dt: int, left: bool, right: bool) -> int {
    norm_turn(yaw + rot_delta(dt, left, right))
}

/// One frame of the rotation system: yaws the player left and right
/// by the held arrow keys, touching nothing but the yaw.
pub fn rotate_jumping_object(player: &mut PlayerState, dt: i64, left: bool, right: bool)
    requires
        0 <= old(player).yaw < TURN,
        0 <= dt <= MAX_FRAME_TICKS,
    ensures
        final(player).pos == old(player).pos,
        final(player).jump == old(player).jump,
        final(player).yaw == rotate_yaw_spec(old(player).yaw as int, dt as int, left, right),
        0 <= final(player).yaw < TURN,
{
    let l: i64 = if left {
        ROT_RATE * dt
    } else {
        0
    };
    let r: i64 = if right {
        ROT_RATE * dt
    } else {
        0
    };
    let lm: i64 = l % TURN;
    let rm: i64 = r % TURN;
    proof {
        vstd::arithmetic::div_mod::lemma_mod_bound(l as int, TURN as int);
        vstd::arithmetic::div_mod::lemma_mod_bound(r as int, TURN as int);
    }
    let s: i64 = player.yaw + lm + (TURN - rm);
    let yaw2: i64 = s % TURN;
    proof {
        let t = TURN as int;
        let yaw0 = player.yaw as int;
        vstd::arithmetic::div_mod::lemma_mod_bound(s as int, t);
        vstd::arithmetic::div_mod::lemma_mod_add_multiples_vanish(yaw0 + lm - rm, t);
        assert(s == (yaw0 + lm - rm) + t);
        vstd::arithmetic::div_mod::lemma_sub_mod_noop_right(yaw0 + lm, r as int, t);
        vstd::arithmetic::div_mod::lemma_add_mod_noop_right(yaw0 - r, l as int, t);
        assert((yaw0 + lm - rm) % t == (yaw0 + lm - r) % t);
        assert(yaw0 + lm - r == (yaw0 - r) + lm && (yaw0 - r) + l == yaw0 + l - r);
        assert((s as int) % t == norm_turn(yaw0 + rot_delta(dt as int, left, right)));
    }
    player.yaw = yaw2;
}

/// The yaw after `n` frames of rotation with the same keys held.
pub open spec fn rotate_n_spec(yaw: int, dt: int, left: bool, right: bool, n: nat) -> int
    decreases n,
{
    if n == 0 {
        yaw
    } else {
        rotate_yaw_spec(rotate_n_spec(yaw, dt, left, right, (n - 1) as nat), dt, left, right)
    }
}

/// Rotation is linear in held time: `n` frames of the same held keys
/// yaw the player by `n` times the per-frame change, modulo one turn,
/// independent of how the time is cut into frames.
pub proof fn lemma_rotation_linear(yaw: int, dt: int, left: bool, right: bool, n: nat)
    requires
        0 <= yaw < TURN,
    ensures
        rotate_n_spec(yaw, dt, left, right, n) == norm_turn(
            yaw + n * rot_delta(dt, left, right),
        ),
    decreases n,
{
    let t = TURN as int;
    let d = rot_delta(dt, left, right);
    if n == 0 {
        vstd::arithmetic::div_mod::lemma_small_mod(yaw as nat, TURN as nat);
    } else {
        lemma_rotation_linear(yaw, dt, left, right, (n - 1) as nat);
        let prev = yaw + (n - 1) * d;
        vstd::arithmetic::div_mod::lemma_add_mod_noop_right(d, prev, t);
        assert(n * d == (n - 1) * d + d) by (nonlinear_arith)
            requires
                n >= 1,
        ;
        assert(norm_turn(prev) + d == d + prev % t);
        assert((d + prev) % t == norm_turn(yaw + n * d));
    }
}

/// Cutting the same held time into different frames makes no
/// difference: any two discretisations with the same total tick
/// count land on the same yaw.
pub proof fn lemma_rotation_discretisation(
    yaw: int,
    dt1: int,
    n1: nat,
    dt2: int,
    n2: nat,
    left: bool,
    right: bool,
)
    requires
        0 <= yaw < TURN,
        n1 * dt1 == n2 * dt2,
    ensures
        rotate_n_spec(yaw, dt1, left, right, n1) == rotate_n_spec(yaw, dt2, left, right, n2),
{
    lemma_rotation_linear(yaw, dt1, left, right, n1);
    lemma_rotation_linear(yaw, dt2, left, right, n2);
    assert(n1 * rot_delta(dt1, left, right) == n2 * rot_delta(dt2, left, right))
        by (nonlinear_arith)
        requires
            n1 * dt1 == n2 * dt2,
            rot_delta(dt1, left, right) == (if left { ROT_RATE * dt1 } else { 0int })
                - (if right { ROT_RATE * dt1 } else { 0int }),
            rot_delta(dt2, left, right) == (if left { ROT_RATE * dt2 } else { 0int })
                - (if right { ROT_RATE * dt2 } else { 0int }),
            ROT_RATE == 15,
    ;
}

} // verus!
