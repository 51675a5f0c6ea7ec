//! Projectiles: spawning one from the shooter's pose, the per-frame
//! motion integration, and the cull that despawns them at the edge of
//! the play area.

use vstd::prelude::*;
use crate::player::PlayerState;
use crate::trig::{cos_turn, cos_turn_spec, sin_turn, sin_turn_spec};
use crate::units::{
    BULLET_SPEED, CULL_BOUND, MAX_FRAME_TICKS, SCALE, TURN, V3, Vec3Fix, scaled_delta,
    scaled_delta_spec,
};

verus! {

/// Loose ceiling on any projectile coordinate, far beyond the play
/// area; it only serves to keep the integration inside machine range.
pub const POS_LIMIT: i64 = 1_000_000_000_000_000;

/// A projectile entity: where it is and the constant velocity it
/// flies with, in sub-units per second.
#[derive(Clone, Copy, PartialEq, Eq, Structural, Debug)]
pub struct Projectile {
    pub pos: Vec3Fix,
    pub vel: Vec3Fix,
}

/// Ghost image of a projectile over the unbounded integers.
pub struct PView {
    pub pos: V3,
    pub vel: V3,
}

impl View for Projectile {
    type V = PView;

    open spec fn view(&self) -> PView {
        PView { pos: self.pos@, vel: self.vel@ }
    }
}

/// Ghost images of a whole projectile column, in order.
pub open spec fn views(s: Seq<Projectile>) -> Seq<PView> {
    s.map_values(|q: Projectile| q@)
}

/// A well-formed projectile: it flies level, no faster than
/// `BULLET_SPEED`, from a spot inside machine range.
pub open spec fn proj_wf(q: Projectile) -> bool {
    &&& -BULLET_SPEED * SCALE <= q.vel.x <= BULLET_SPEED * SCALE
    &&& q.vel.y == 0
    &&& -BULLET_SPEED * SCALE <= q.vel.z <= BULLET_SPEED * SCALE
    &&& -POS_LIMIT <= q.pos.x <= POS_LIMIT
    &&& -POS_LIMIT <= q.pos.y <= POS_LIMIT
    &&& -POS_LIMIT <= q.pos.z <= POS_LIMIT
}

/// The projectile a shooter standing at `pos` with heading `yaw`
/// lets fly: it starts on the shooter and flies along the shooter's
/// forward direction (local −Z, read off the yaw) at `BULLET_SPEED`.
pub open spec fn spawn_view(pos: V3, yaw: int) -> PView {
    PView {
        pos: pos,
        vel: V3 {
            x: -BULLET_SPEED * sin_turn_spec(yaw),
            y: 0,
            z: -BULLET_SPEED * cos_turn_spec(yaw),
        },
    }
}

/// One frame of the shoot system: a rising edge of the fire key
/// appends exactly one projectile in the shooter's pose; otherwise
/// nothing changes. A held key spawns nothing further: the caller
/// reports edges, not levels.
pub fn shoot(player: &PlayerState, objs: &mut Vec<Projectile>, shoot_edge: bool)
    requires
        0 <= player.yaw < TURN,
        -POS_LIMIT <= player.pos.x <= POS_LIMIT,
        -POS_LIMIT <= player.pos.y <= POS_LIMIT,
        -POS_LIMIT <= player.pos.z <= POS_LIMIT,
    ensures
        shoot_edge ==> views(final(objs)@) == views(old(objs)@).push(spawn_view(player.pos@, player.yaw as int)),
        !shoot_edge ==> final(objs)@ == old(objs)@,
        shoot_edge ==> final(objs)@.len() == old(objs)@.len() + 1 && proj_wf(
            final(objs)@.last(),
        ),
        forall|i: int|
            0 <= i < old(objs)@.len() ==> final(objs)@[i] == #[trigger] old(objs)@[i],
{
    if shoot_edge {
        let sv: i64 = sin_turn(player.yaw);
        let cv: i64 = cos_turn(player.yaw);
        let q = Projectile {
            pos: player.pos,
            vel: Vec3Fix { x: -(BULLET_SPEED * sv), y: 0, z: -(BULLET_SPEED * cv) },
        };
        objs.push(q);
        proof {
            assert(q@ == spawn_view(player.pos@, player.yaw as int));
            assert(views(objs@) =~= views(old(objs)@).push(spawn_view(player.pos@, player.yaw as int)));
        }
    }
}

/// Where a projectile stands one frame of `dt` ticks later: each
/// component advances by its velocity scaled down to the frame.
pub open spec fn moved_view(q: PView, dt: int) -> PView {
    PView {
        pos: V3 {
            x: q.pos.x + scaled_delta_spec(q.vel.x, dt),
            y: q.pos.y + scaled_delta_spec(q.vel.y, dt),
            z: q.pos.z + scaled_delta_spec(q.vel.z, dt),
        },
        vel: q.vel,
    }
}

/// A whole column one frame later, entry by entry.
pub open spec fn moved_seq(s: Seq<PView>, dt: int) -> Seq<PView> {
    s.map_values(|q: PView| moved_view(q, dt))
}

/// One frame of the motion system: every projectile advances by its
/// own constant velocity over `dt` ticks; no gravity, no drag.
pub fn flying_bullets(objs: &mut Vec<Projectile>, dt: i64)
    requires
        0 <= dt <= MAX_FRAME_TICKS,
        forall|i: int| 0 <= i < old(objs)@.len() ==> proj_wf(#[trigger] old(objs)@[i]),
    ensures
        final(objs)@.len() == old(objs)@.len(),
        forall|i: int|
            0 <= i < old(objs)@.len() ==> #[trigger] final(objs)@[i]@ == moved_view(
                old(objs)@[i]@,
                dt as int,
            ),
        views(final(objs)@) == moved_seq(views(old(objs)@), dt as int),
{
    let n: usize = objs.len();
    let mut i: usize = 0;
    while i < n
        invariant
            0 <= dt <= MAX_FRAME_TICKS,
            i <= n,
            n == old(objs)@.len(),
            objs@.len() == n,
            forall|k: int| 0 <= k < n ==> proj_wf(#[trigger] old(objs)@[k]),
            forall|k: int|
                i <= k < n ==> #[trigger] objs@[k] == old(objs)@[k],
            forall|k: int|
                0 <= k < i ==> #[trigger] objs@[k]@ == moved_view(old(objs)@[k]@, dt as int),
        decreases n - i,
    {
        let q: Projectile = objs[i];
        let q2 = Projectile {
            pos: Vec3Fix {
                x: q.pos.x + scaled_delta(q.vel.x, dt),
                y: q.pos.y + scaled_delta(q.vel.y, dt),
                z: q.pos.z + scaled_delta(q.vel.z, dt),
            },
            vel: q.vel,
        };
        objs.set(i, q2);
        i = i + 1;
    }
    proof {
        assert(views(objs@) =~= moved_seq(views(old(objs)@), dt as int));
    }
}

/// A projectile is inside the play area: both ground-plane
/// coordinates within the cull half-extent; height is not considered.
pub open spec fn in_bounds(q: PView) -> bool {
    &&& -CULL_BOUND <= q.pos.x <= CULL_BOUND
    &&& -CULL_BOUND <= q.pos.z <= CULL_BOUND
}

/// The projectiles that survive a cull, in order.
pub open spec fn cull_spec(s: Seq<PView>) -> Seq<PView> {
    s.filter(|q: PView| in_bounds(q))
}

/// One frame of the cull system: exactly the projectiles outside the
/// play area are despawned; the rest keep their order and state.
pub fn flying_objects_despawn(objs: &mut Vec<Projectile>)
    ensures
        views(final(objs)@) == cull_spec(views(old(objs)@)),
        forall|i: int|
            0 <= i < final(objs)@.len() ==> in_bounds(#[trigger] final(objs)@[i]@),
        forall|i: int|
            0 <= i < final(objs)@.len() ==> exists|j: int|
                0 <= j < old(objs)@.len() && #[trigger] final(objs)@[i] == old(objs)@[j],
{
    let mut kept: Vec<Projectile> = Vec::new();
    let n: usize = objs.len();
    let mut i: usize = 0;
    proof {
        assert(views(objs@.subrange(0, 0)) =~= Seq::<PView>::empty());
        reveal_with_fuel(Seq::filter, 1);
        assert(cull_spec(views(objs@.subrange(0, 0))) =~= Seq::<PView>::empty());
    }
    while i < n
        invariant
            i <= n,
            n == objs@.len(),
            objs@ == old(objs)@,
            views(kept@) == cull_spec(views(objs@.subrange(0, i as int))),
            forall|k: int| 0 <= k < kept@.len() ==> in_bounds(#[trigger] kept@[k]@),
            forall|k: int|
                0 <= k < kept@.len() ==> exists|j: int|
                    0 <= j < objs@.len() && #[trigger] kept@[k] == objs@[j],
        decreases n - i,
    {
        let q: Projectile = objs[i];
        let ghost pre = views(objs@.subrange(0, i as int));
        let ghost cur = views(objs@.subrange(0, i as int + 1));
        proof {
            assert(cur.drop_last() =~= pre);
            assert(cur.last() == q@);
            reveal(Seq::filter);
            assert(cull_spec(cur) == if in_bounds(q@) {
                cull_spec(pre).push(q@)
            } else {
                cull_spec(pre)
            });
        }
        let inside: bool = -CULL_BOUND <= q.pos.x && q.pos.x <= CULL_BOUND
            && -CULL_BOUND <= q.pos.z && q.pos.z <= CULL_BOUND;
        if inside {
            kept.push(q);
            proof {
                assert(views(kept@) =~= cull_spec(cur));
            }
        }
        i = i + 1;
    }
    proof {
        assert(objs@.subrange(0, n as int) =~= objs@);
    }
    *objs = kept;
}

/// What survives a cull, exactly: every surviving entry is within
/// the play area, and every entry within the play area survives.
pub proof fn lemma_cull_predicate(s: Seq<PView>)
    ensures
        forall|i: int| 0 <= i < cull_spec(s).len() ==> in_bounds(#[trigger] cull_spec(s)[i]),
        forall|i: int|
            0 <= i < s.len() && in_bounds(#[trigger] s[i]) ==> cull_spec(s).contains(s[i]),
{
    broadcast use vstd::seq_lib::group_filter_ensures;

    assert(cull_spec(s) == s.filter(|q: PView| in_bounds(q)));
}

/// The coordinate a projectile reaches after `n` frames of motion
/// along one axis, frame by frame.
pub open spec fn fly_n(c: int, v: int, dt: int, n: nat) -> int
    decreases n,
{
    if n == 0 {
        c
    } else {
        fly_n(c, v, dt, (n - 1) as nat) + scaled_delta_spec(v, dt)
    }
}

/// Projectile flight is exact: fired straight along −Z, after `n`
/// frames of `dt` ticks the projectile stands
/// `BULLET_SPEED·dt·n / TICKS_PER_SEC` further down the −Z axis, with
/// no rounding loss at any frame rate.
pub proof fn lemma_projectile_flight(z0: int, dt: int, n: nat)
    requires
        0 <= dt,
    ensures
        fly_n(z0, -BULLET_SPEED * SCALE, dt, n) == z0 - n * (
        (BULLET_SPEED * SCALE / (crate::units::TICKS_PER_SEC as int)) * dt),
    decreases n,
{
    let tps = crate::units::TICKS_PER_SEC as int;
    let rate = BULLET_SPEED * SCALE / tps;
    assert(rate == 100) by {
        vstd::arithmetic::div_mod::lemma_div_by_multiple(100, tps);
    }
    if n == 0 {
    } else {
        lemma_projectile_flight(z0, dt, (n - 1) as nat);
        let v = -BULLET_SPEED * SCALE;
        assert(v * dt == -(6_000_000 * dt) && BULLET_SPEED * SCALE * dt == (rate * dt) * tps)
            by (nonlinear_arith)
            requires
                v == -6_000_000,
                rate == 100,
                tps == 60_000,
        ;
        vstd::arithmetic::div_mod::lemma_div_by_multiple(rate * dt, tps);
        if dt == 0 {
            vstd::arithmetic::div_mod::lemma_basic_div(0, tps);
            assert(scaled_delta_spec(v, dt) == -(rate * dt));
        } else {
            assert(v * dt < 0) by (nonlinear_arith)
                requires
                    v == -6_000_000,
                    dt >= 1,
            ;
            assert(scaled_delta_spec(v, dt) == -((6_000_000 * dt) / tps));
            assert(scaled_delta_spec(v, dt) == -(rate * dt));
        }
        assert(n * (rate * dt) == (n - 1) * (rate * dt) + rate * dt) by (nonlinear_arith)
            requires
                n >= 1,
        ;
    }
}

} // verus!
