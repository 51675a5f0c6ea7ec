//! The world: the static stage built once at startup, the per-frame
//! key input, and the frame step that runs the jump, shoot, motion,
//! cull and rotation systems over the entities.

use vstd::prelude::*;
use crate::player::{
    PlayerState, jump_step_jump, jump_step_y, jump_system, rotate_jumping_object,
    rotate_yaw_spec,
};
use crate::projectile::{
    Projectile, cull_spec, flying_bullets, flying_objects_despawn, in_bounds,
    moved_seq, moved_view, proj_wf, shoot, spawn_view, views,
};
use crate::units::{
    CULL_BOUND, MAX_FRAME_TICKS, MAX_TICKS, V3, Vec3Fix, lemma_scaled_delta_bounds,
    scaled_delta_spec,
};

verus! {

/// The held state of the four bound keys on one frame.
#[derive(Clone, Copy, PartialEq, Eq, Structural, Debug)]
pub struct Keys {
    pub space: bool,
    pub shoot: bool,
    pub left: bool,
    pub right: bool,
}

/// What the systems read on one frame: rising edges for the two
/// edge-triggered keys, held levels for the arrows.
#[derive(Clone, Copy, PartialEq, Eq, Structural, Debug)]
pub struct KeyInput {
    pub space_edge: bool,
    pub shoot_edge: bool,
    pub left_held: bool,
    pub right_held: bool,
}

/// Derives a frame's input from the previous and the current held
/// state: the jump and fire keys act on the rising edge only, so a
/// key held across frames fires exactly once; the arrows act on the
/// level, every frame they are down.
pub fn key_input(prev: &Keys, cur: &Keys) -> (r: KeyInput)
    ensures
        r.space_edge == (cur.space && !prev.space),
        r.shoot_edge == (cur.shoot && !prev.shoot),
        r.left_held == cur.left,
        r.right_held == cur.right,
{
    KeyInput {
        space_edge: cur.space && !prev.space,
        shoot_edge: cur.shoot && !prev.shoot,
        left_held: cur.left,
        right_held: cur.right,
    }
}

/// The static stage: the visual-only entities spawned once before
/// the first frame and never touched again.
#[derive(Clone, Copy, PartialEq, Eq, Structural, Debug)]
pub struct Scene {
    /// Radius of the ground disc.
    pub ground_radius: i64,
    /// Tilt of the ground disc about X, laying it into the XZ plane.
    pub ground_tilt: i64,
    pub camera_pos: Vec3Fix,
    pub camera_target: Vec3Fix,
    pub light_pos: Vec3Fix,
    pub light_shadows: bool,
    /// Edge length of the player cube.
    pub player_edge: i64,
    pub player_red: u8,
    pub player_green: u8,
    pub player_blue: u8,
    /// Capsule shape of a projectile.
    pub bullet_radius: i64,
    pub bullet_length: i64,
}

/// The dynamic world: the player, the live projectiles, and the
/// clock in ticks.
pub struct World {
    pub player: PlayerState,
    pub projectiles: Vec<Projectile>,
    pub now: i64,
}

impl World {
    /// The frame invariant: the clock is in range, the player is
    /// well formed at it, and every projectile is well formed and
    /// inside the play area.
    pub open spec fn wf(self) -> bool {
        &&& 0 <= self.now <= MAX_TICKS
        &&& self.player.wf(self.now as int)
        &&& forall|i: int|
            0 <= i < self.projectiles@.len() ==> proj_wf(#[trigger] self.projectiles@[i])
        &&& forall|i: int|
            0 <= i < self.projectiles@.len() ==> in_bounds(#[trigger] self.projectiles@[i]@)
        &&& forall|i: int|
            0 <= i < self.projectiles@.len() ==> 0 <= (
            #[trigger] self.projectiles@[i]).pos.y <= 1_800_000
    }
}

/// One-shot construction of the stage and the starting world: the
/// ground disc lying in the XZ plane, the camera looking at the
/// player's resting spot, a white shadow-casting point light, and
/// the player cube at rest in the middle with no hop in flight.
pub fn setup() -> (r: (Scene, World))
    ensures
        r.0 == (Scene {
            ground_radius: 19_200_000,
            ground_tilt: -250_000i64,
            camera_pos: Vec3Fix { x: -1_800_000i64, y: 5_400_000, z: 8_400_000 },
            camera_target: Vec3Fix { x: 0, y: 600_000, z: 0 },
            light_pos: Vec3Fix { x: 4_800_000, y: 9_600_000, z: 4_800_000 },
            light_shadows: true,
            player_edge: 600_000,
            player_red: 124,
            player_green: 144,
            player_blue: 255,
            bullet_radius: 60_000,
            bullet_length: 360_000,
        }),
        r.1.wf(),
        r.1.now == 0,
        r.1.player.pos == (Vec3Fix { x: 0, y: 600_000, z: 0 }),
        r.1.player.yaw == 0,
        !r.1.player.jump.is_jump,
        r.1.player.jump.jump_init == 0,
        r.1.projectiles@.len() == 0,
{
    let scene = Scene {
        ground_radius: 19_200_000,
        ground_tilt: -250_000,
        camera_pos: Vec3Fix { x: -1_800_000, y: 5_400_000, z: 8_400_000 },
        camera_target: Vec3Fix { x: 0, y: 600_000, z: 0 },
        light_pos: Vec3Fix { x: 4_800_000, y: 9_600_000, z: 4_800_000 },
        light_shadows: true,
        player_edge: 600_000,
        player_red: 124,
        player_green: 144,
        player_blue: 255,
        bullet_radius: 60_000,
        bullet_length: 360_000,
    };
    let world = World {
        player: PlayerState {
            pos: Vec3Fix { x: 0, y: 600_000, z: 0 },
            yaw: 0,
            jump: crate::player::JumpState { jump_init: 0, is_jump: false },
        },
        projectiles: Vec::new(),
        now: 0,
    };
    (scene, world)
}

impl World {
    /// One engine frame at the current clock. The jump system runs
    /// first (advance before trigger), the shoot system reads the
    /// player it left, projectiles move, the cull despawns the ones
    /// outside the play area, and rotation yaws the player; then the
    /// clock advances by `dt`. The contract composes the systems'
    /// own specifications, so the whole frame is pinned down.
    pub fn step(&mut self, input: KeyInput, dt: i64)
        requires
            old(self).wf(),
            0 <= dt <= MAX_FRAME_TICKS,
            old(self).now + dt <= MAX_TICKS,
        ensures
            final(self).wf(),
            final(self).now == old(self).now + dt,
            final(self).player.pos.x == old(self).player.pos.x,
            final(self).player.pos.z == old(self).player.pos.z,
            final(self).player.jump == jump_step_jump(
                old(self).player.jump,
                old(self).now as int,
                input.space_edge,
            ),
            final(self).player.pos.y == jump_step_y(
                old(self).player.jump,
                old(self).player.pos.y as int,
                old(self).now as int,
            ),
            final(self).player.yaw == rotate_yaw_spec(
                old(self).player.yaw as int,
                dt as int,
                input.left_held,
                input.right_held,
            ),
            views(final(self).projectiles@) == cull_spec(
                moved_seq(
                    if input.shoot_edge {
                        views(old(self).projectiles@).push(
                            spawn_view(
                                (V3 {
                                    x: old(self).player.pos.x as int,
                                    y: jump_step_y(
                                        old(self).player.jump,
                                        old(self).player.pos.y as int,
                                        old(self).now as int,
                                    ),
                                    z: old(self).player.pos.z as int,
                                }),
                                old(self).player.yaw as int,
                            ),
                        )
                    } else {
                        views(old(self).projectiles@)
                    },
                    dt as int,
                ),
            ),
    {
        let now: i64 = self.now;
        let ghost pre = *old(self);
        jump_system(&mut self.player, now, input.space_edge);
        shoot(&self.player, &mut self.projectiles, input.shoot_edge);
        let ghost spawned = spawn_view(
            V3 {
                x: pre.player.pos.x as int,
                y: jump_step_y(pre.player.jump, pre.player.pos.y as int, pre.now as int),
                z: pre.player.pos.z as int,
            },
            pre.player.yaw as int,
        );
        let ghost after_spawn = self.projectiles@;
        proof {
            if input.shoot_edge {
                assert(self.player.pos@ == spawned.pos);
                assert(views(after_spawn) == views(pre.projectiles@).push(spawned));
            } else {
                assert(views(after_spawn) =~= views(pre.projectiles@));
            }
            // everything in the column going into the motion pass is
            // well formed and starts inside the play area
            assert forall|i: int| 0 <= i < after_spawn.len() implies proj_wf(
                #[trigger] after_spawn[i],
            ) && -CULL_BOUND <= after_spawn[i].pos.x <= CULL_BOUND && -CULL_BOUND
                <= after_spawn[i].pos.z <= CULL_BOUND && 0 <= after_spawn[i].pos.y
                <= 1_800_000 by {
                if input.shoot_edge && i == after_spawn.len() - 1 {
                    assert(views(after_spawn)[i] == after_spawn[i]@);
                    assert(views(pre.projectiles@).push(spawned)[i] == spawned);
                    assert(after_spawn[i]@ == spawned);
                } else {
                    assert(after_spawn[i] == pre.projectiles@[i]);
                    assert(proj_wf(pre.projectiles@[i]) && in_bounds(pre.projectiles@[i]@));
                }
            }
        }
        flying_bullets(&mut self.projectiles, dt);
        let ghost after_move = self.projectiles@;
        flying_objects_despawn(&mut self.projectiles);
        rotate_jumping_object(&mut self.player, dt, input.left_held, input.right_held);
        self.now = now + dt;
        proof {
            assert(views(after_move) == moved_seq(views(after_spawn), dt as int));
            // every projectile that survives the cull came out of the
            // motion pass well formed and within machine range
            assert forall|i: int| 0 <= i < self.projectiles@.len() implies proj_wf(
                #[trigger] self.projectiles@[i],
            ) && 0 <= self.projectiles@[i].pos.y <= 1_800_000 by {
                let q = self.projectiles@[i];
                assert(exists|j: int| 0 <= j < after_move.len() && q == after_move[j]);
                let j = choose|j: int| 0 <= j < after_move.len() && q == after_move[j];
                assert(after_move[j]@ == moved_view(after_spawn[j]@, dt as int));
                let p = after_spawn[j];
                assert(proj_wf(p));
                lemma_scaled_delta_bounds(p.vel.x as int, dt as int);
                lemma_scaled_delta_bounds(p.vel.z as int, dt as int);
                assert(scaled_delta_spec(p.vel.y as int, dt as int) == 0) by {
                    assert(p.vel.y == 0);
                    vstd::arithmetic::div_mod::lemma_basic_div(
                        0,
                        crate::units::TICKS_PER_SEC as int,
                    );
                }
            }
        }
    }
}

} // verus!
