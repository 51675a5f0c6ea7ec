use hopshot::player::{JumpState, PlayerState, jump_system, rotate_jumping_object};
use hopshot::projectile::{Projectile, flying_bullets, flying_objects_despawn, shoot};
use hopshot::trig::{cos_turn, sin_half, sin_turn};
use hopshot::units::Vec3Fix;
use hopshot::world::{KeyInput, Keys, Scene, World, key_input, setup};

fn no_keys() -> KeyInput {
    KeyInput { space_edge: false, shoot_edge: false, left_held: false, right_held: false }
}

fn press_space() -> KeyInput {
    KeyInput { space_edge: true, shoot_edge: false, left_held: false, right_held: false }
}

fn press_shoot() -> KeyInput {
    KeyInput { space_edge: false, shoot_edge: true, left_held: false, right_held: false }
}

fn hold_left() -> KeyInput {
    KeyInput { space_edge: false, shoot_edge: false, left_held: true, right_held: false }
}

fn hold_right() -> KeyInput {
    KeyInput { space_edge: false, shoot_edge: false, left_held: false, right_held: true }
}

const TICK_60FPS: i64 = 1_000; // 1/60 s on the 60000-per-second grid
const TICK_50MS: i64 = 3_000; // 0.05 s

#[test]
fn scene_constants() {
    let (scene, world) = setup();
    let expected = Scene {
        ground_radius: 19_200_000,
        ground_tilt: -250_000,
        camera_pos: Vec3Fix { x: -1_800_000, y: 5_400_000, z: 8_400_000 },
        camera_target: Vec3Fix { x: 0, y: 600_000, z: 0 },
        light_pos: Vec3Fix { x: 4_800_000, y: 9_600_000, z: 4_800_000 },
        light_shadows: true,
        player_edge: 600_000,
        player_red: 124,
        player_green: 144,
        player_blue: 255,
        bullet_radius: 60_000,
        bullet_length: 360_000,
    };
    assert_eq!(scene, expected);
    assert_eq!(world.now, 0);
    assert_eq!(world.player.pos, Vec3Fix { x: 0, y: 600_000, z: 0 });
    assert_eq!(world.player.yaw, 0);
    assert!(!world.player.jump.is_jump);
    assert_eq!(world.projectiles.len(), 0);
}

#[test]
fn idle_frame_is_exact() {
    // one frame at 1/60 s with nothing pressed changes nothing
    let (_, mut world) = setup();
    let initial = world.player;
    world.step(no_keys(), TICK_60FPS);
    assert_eq!(world.player, initial);
    assert_eq!(world.projectiles.len(), 0);
    assert_eq!(world.now, TICK_60FPS);
}

#[test]
fn jump_trajectory_at_20hz() {
    // press the jump key at t = 0 and run 0.05 s frames
    let (_, mut world) = setup();
    world.step(press_space(), TICK_50MS);
    assert!(world.player.jump.is_jump);
    assert_eq!(world.player.jump.jump_init, 0);
    assert_eq!(world.player.pos.y, 600_000); // takeoff frame is still at rest height
    for frame in 1..=7 {
        world.step(no_keys(), TICK_50MS);
        if frame == 3 {
            // t = 0.15 s: about 1.4975 world units up
            assert_eq!(world.player.pos.y, 1_796_951);
        }
    }
    // the eighth frame ran at t = 0.35 s, past the hop window
    assert!(!world.player.jump.is_jump);
    assert_eq!(world.player.pos.y, 600_000);
}

#[test]
fn jump_apex_is_exact() {
    // half way through the window the cube stands exactly one unit up
    let mut player = PlayerState {
        pos: Vec3Fix { x: 0, y: 600_000, z: 0 },
        yaw: 0,
        jump: JumpState { jump_init: 0, is_jump: true },
    };
    jump_system(&mut player, 9_425, false);
    assert_eq!(player.pos.y, 1_800_000);
}

#[test]
fn jump_keeps_ground_plane_position() {
    let mut player = PlayerState {
        pos: Vec3Fix { x: 0, y: 600_000, z: 0 },
        yaw: 123_456,
        jump: JumpState { jump_init: 0, is_jump: true },
    };
    jump_system(&mut player, 5_000, false);
    assert_eq!(player.pos.x, 0);
    assert_eq!(player.pos.z, 0);
    assert_eq!(player.yaw, 123_456);
    assert!(player.pos.y > 600_000);
}

#[test]
fn second_press_in_flight_is_ignored() {
    let (_, mut world) = setup();
    world.step(press_space(), TICK_50MS);
    assert_eq!(world.player.jump.jump_init, 0);
    // 0.05 s later, well inside the window, press again
    world.step(press_space(), TICK_50MS);
    assert!(world.player.jump.is_jump);
    assert_eq!(world.player.jump.jump_init, 0);
}

#[test]
fn press_on_landing_frame_starts_new_jump() {
    // the advance step clears the landed hop before the trigger runs
    let mut player = PlayerState {
        pos: Vec3Fix { x: 0, y: 600_000, z: 0 },
        yaw: 0,
        jump: JumpState { jump_init: 0, is_jump: true },
    };
    jump_system(&mut player, 20_000, true);
    assert!(player.jump.is_jump);
    assert_eq!(player.jump.jump_init, 20_000);
    assert_eq!(player.pos.y, 600_000);
}

#[test]
fn rotate_right_one_second() {
    // 0.9 rev/s held for 1 s lands on 0.1 of a turn, measured canonically
    let (_, mut world) = setup();
    for _ in 0..60 {
        world.step(hold_right(), TICK_60FPS);
    }
    assert_eq!(world.player.yaw, 100_000);
}

#[test]
fn rotate_left_one_second() {
    let (_, mut world) = setup();
    for _ in 0..60 {
        world.step(hold_left(), TICK_60FPS);
    }
    assert_eq!(world.player.yaw, 900_000);
}

#[test]
fn rotation_is_frame_rate_independent() {
    let mut a = PlayerState {
        pos: Vec3Fix { x: 0, y: 600_000, z: 0 },
        yaw: 0,
        jump: JumpState { jump_init: 0, is_jump: false },
    };
    let mut b = a;
    rotate_jumping_object(&mut a, 1_000, true, false);
    rotate_jumping_object(&mut b, 500, true, false);
    rotate_jumping_object(&mut b, 500, true, false);
    assert_eq!(a.yaw, b.yaw);
    assert_eq!(a.yaw, 15_000);
}

#[test]
fn both_arrows_cancel() {
    let mut player = PlayerState {
        pos: Vec3Fix { x: 0, y: 600_000, z: 0 },
        yaw: 42_000,
        jump: JumpState { jump_init: 0, is_jump: false },
    };
    rotate_jumping_object(&mut player, 1_000, true, true);
    assert_eq!(player.yaw, 42_000);
}

#[test]
fn shot_flies_down_negative_z_and_is_culled() {
    // fire once facing -Z, then idle: the projectile marches 1/12 of
    // a unit per frame and dies just past the floor edge
    let (_, mut world) = setup();
    world.step(press_shoot(), TICK_60FPS);
    assert_eq!(world.projectiles.len(), 1);
    assert_eq!(world.projectiles[0].vel, Vec3Fix { x: 0, y: 0, z: -6_000_000 });
    assert_eq!(world.projectiles[0].pos, Vec3Fix { x: 0, y: 600_000, z: -100_000 });
    for _ in 1..192 {
        world.step(no_keys(), TICK_60FPS);
    }
    // at t = 3.2 s the projectile sits exactly on the edge and survives
    assert_eq!(world.projectiles.len(), 1);
    assert_eq!(world.projectiles[0].pos.z, -19_200_000);
    world.step(no_keys(), TICK_60FPS);
    assert_eq!(world.projectiles.len(), 0);
    // four seconds in, nothing remains
    for _ in 193..240 {
        world.step(no_keys(), TICK_60FPS);
    }
    assert_eq!(world.projectiles.len(), 0);
}

#[test]
fn two_shots_fly_independently() {
    // fire facing -Z, quarter-turn left, fire again: one projectile
    // down -Z, one down -X, both at speed 5
    let (_, mut world) = setup();
    world.step(press_shoot(), TICK_60FPS);
    world.player.yaw = 250_000;
    world.step(press_shoot(), TICK_60FPS);
    assert_eq!(world.projectiles.len(), 2);
    assert_eq!(world.projectiles[0].vel, Vec3Fix { x: 0, y: 0, z: -6_000_000 });
    assert_eq!(world.projectiles[1].vel, Vec3Fix { x: -6_000_000, y: 0, z: 0 });
    assert_eq!(world.projectiles[0].pos, Vec3Fix { x: 0, y: 600_000, z: -200_000 });
    assert_eq!(world.projectiles[1].pos, Vec3Fix { x: -100_000, y: 600_000, z: 0 });
}

#[test]
fn shoot_spawns_on_edge_only() {
    let player = PlayerState {
        pos: Vec3Fix { x: 0, y: 600_000, z: 0 },
        yaw: 0,
        jump: JumpState { jump_init: 0, is_jump: false },
    };
    let mut objs: Vec<Projectile> = Vec::new();
    shoot(&player, &mut objs, false);
    assert_eq!(objs.len(), 0);
    shoot(&player, &mut objs, true);
    assert_eq!(objs.len(), 1);
}

#[test]
fn key_edges_fire_once() {
    let up = Keys { space: false, shoot: false, left: false, right: false };
    let down = Keys { space: true, shoot: true, left: true, right: true };
    let first = key_input(&up, &down);
    assert!(first.space_edge && first.shoot_edge && first.left_held && first.right_held);
    let held = key_input(&down, &down);
    assert!(!held.space_edge && !held.shoot_edge);
    assert!(held.left_held && held.right_held);
    let released = key_input(&down, &up);
    assert!(!released.space_edge && !released.shoot_edge);
    assert!(!released.left_held && !released.right_held);
}

#[test]
fn motion_integrates_velocity() {
    let mut objs = vec![Projectile {
        pos: Vec3Fix { x: 0, y: 600_000, z: 0 },
        vel: Vec3Fix { x: 3_000_000, y: 0, z: -6_000_000 },
    }];
    flying_bullets(&mut objs, 1_000);
    assert_eq!(objs[0].pos, Vec3Fix { x: 50_000, y: 600_000, z: -100_000 });
    assert_eq!(objs[0].vel, Vec3Fix { x: 3_000_000, y: 0, z: -6_000_000 });
}

#[test]
fn motion_truncates_toward_zero() {
    let mut objs = vec![Projectile {
        pos: Vec3Fix { x: 0, y: 600_000, z: 0 },
        vel: Vec3Fix { x: -1, y: 0, z: 1 },
    }];
    flying_bullets(&mut objs, 1_000);
    assert_eq!(objs[0].pos, Vec3Fix { x: 0, y: 600_000, z: 0 });
}

#[test]
fn cull_is_exact_on_the_boundary() {
    let at = |x: i64, z: i64| Projectile {
        pos: Vec3Fix { x, y: 600_000, z },
        vel: Vec3Fix { x: 0, y: 0, z: 0 },
    };
    let mut objs = vec![
        at(19_200_000, 0),
        at(-19_200_000, 0),
        at(0, 19_200_000),
        at(0, -19_200_000),
        at(19_200_001, 0),
        at(-19_200_001, 0),
        at(0, 19_200_001),
        at(0, -19_200_001),
        at(5, -7),
    ];
    flying_objects_despawn(&mut objs);
    assert_eq!(objs.len(), 5);
    assert_eq!(objs[0].pos.x, 19_200_000);
    assert_eq!(objs[1].pos.x, -19_200_000);
    assert_eq!(objs[2].pos.z, 19_200_000);
    assert_eq!(objs[3].pos.z, -19_200_000);
    assert_eq!(objs[4].pos, Vec3Fix { x: 5, y: 600_000, z: -7 });
}

#[test]
fn sine_quarter_points_are_exact() {
    assert_eq!(sin_turn(0), 0);
    assert_eq!(sin_turn(250_000), 1_200_000);
    assert_eq!(sin_turn(500_000), 0);
    assert_eq!(sin_turn(750_000), -1_200_000);
    assert_eq!(cos_turn(0), 1_200_000);
    assert_eq!(cos_turn(250_000), 0);
    assert_eq!(cos_turn(500_000), -1_200_000);
    assert_eq!(cos_turn(750_000), 0);
}

#[test]
fn half_wave_sample_values() {
    assert_eq!(sin_half(0, 18_850), 0);
    assert_eq!(sin_half(9_425, 18_850), 1_200_000);
    assert_eq!(sin_half(18_850, 18_850), 0);
    assert_eq!(sin_half(3_000, 18_850), 575_487);
    assert_eq!(sin_half(9_000, 18_850), 1_196_951);
    assert_eq!(sin_half(15_000, 18_850), 717_385);
}
