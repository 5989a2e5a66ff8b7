use platform_sim::body::{BodyState, KinematicBody};
use platform_sim::config::Config;
use platform_sim::fall::monitor_fall;
use platform_sim::gravity::apply_gravity;
use platform_sim::movement::{move_player, Input, KeySet};
use platform_sim::units::{MAX_FRAME_MS, MAX_SPEED, WORLD_EXTENT};
use platform_sim::vec3::Vec3;

const UNIT: i64 = 1_000_000_000;

fn keys(left: bool, right: bool, jump: bool) -> KeySet {
    KeySet { left, right, jump }
}

fn no_input() -> Input {
    Input { pressed: KeySet::none(), just_pressed: KeySet::none() }
}

fn airborne_at(cfg: &Config, x: i64, y: i64, z: i64, vy: i64) -> KinematicBody {
    let mut body = KinematicBody::new(cfg, 0, 8 * UNIT);
    body.position = Vec3::new(x, y, z);
    body.velocity = Vec3::new(0, vy, 0);
    body.grounded = false;
    assert!(body.is_valid(cfg));
    body
}

#[test]
fn new_body_rests_at_spawn() {
    let cfg = Config::standard();
    let body = KinematicBody::new(&cfg, 0, 8 * UNIT);
    assert_eq!(body.position, Vec3::new(0, UNIT / 2, 8 * UNIT));
    assert_eq!(body.spawn_position, Vec3::new(0, UNIT / 2, 8 * UNIT));
    assert_eq!(body.velocity, Vec3::zero());
    assert!(body.grounded);
    assert_eq!(body.fall_elapsed, 0);
    assert!(body.is_valid(&cfg));
    assert_eq!(body.current_state(&cfg), BodyState::Grounded);
}

#[test]
fn end_to_end_one_second_off_the_platform() {
    let mut cfg = Config::standard();
    cfg.platform_half_length = 5 * UNIT;
    assert!(cfg.is_valid());
    let mut body = KinematicBody::new(&cfg, 0, 8 * UNIT);
    move_player(&mut body, &cfg, &no_input(), 1000);
    apply_gravity(&mut body, &cfg, 1000);
    assert_eq!(body.velocity.y, -30_000_000);
    assert_eq!(body.position, Vec3::new(0, -29_500_000_000, 8 * UNIT));
    assert!(!body.grounded);
    monitor_fall(&mut body, &cfg, 1000);
    assert_eq!(body.current_state(&cfg), BodyState::FallingOutOfBounds);
    assert_eq!(body.fall_elapsed, 1000);
    assert_eq!(body.position, Vec3::new(0, -29_500_000_000, 8 * UNIT));
    assert!(body.is_valid(&cfg));
}

#[test]
fn gravity_lowers_speed_by_the_same_amount_each_frame() {
    let cfg = Config::standard();
    let mut body = airborne_at(&cfg, 20 * UNIT, 100 * UNIT, 0, 0);
    let mut last = body.velocity.y;
    for _ in 0..10 {
        apply_gravity(&mut body, &cfg, 16);
        assert_eq!(body.velocity.y, last - 30_000 * 16);
        assert!(body.velocity.y < last);
        last = body.velocity.y;
    }
    assert_eq!(body.velocity.y, -4_800_000);
}

#[test]
fn gravity_integrates_position_with_the_new_speed() {
    let cfg = Config::standard();
    let mut body = airborne_at(&cfg, 0, 10 * UNIT, 0, 2_000_000);
    body.velocity.x = 1_000_000;
    body.velocity.z = -500_000;
    apply_gravity(&mut body, &cfg, 100);
    assert_eq!(body.velocity, Vec3::new(1_000_000, -1_000_000, -500_000));
    assert_eq!(body.position, Vec3::new(100_000_000, 10 * UNIT - 100_000_000, -50_000_000));
    assert!(!body.grounded);
}

#[test]
fn landing_clamps_to_the_ground() {
    let cfg = Config::standard();
    let mut body = airborne_at(&cfg, UNIT, UNIT, 0, -20_000_000);
    apply_gravity(&mut body, &cfg, 100);
    assert_eq!(body.position, Vec3::new(UNIT, cfg.ground_height, 0));
    assert_eq!(body.velocity.y, 0);
    assert!(body.grounded);
    assert_eq!(body.fall_elapsed, 0);
    assert_eq!(body.current_state(&cfg), BodyState::Grounded);
}

#[test]
fn landing_exactly_at_ground_height_counts() {
    let cfg = Config::standard();
    let mut body = airborne_at(&cfg, 0, cfg.ground_height + 3_000_000, 0, 0);
    // 30 * 0.01 = 0.3 units/s downwards, times 0.01 s = 0.003 units.
    apply_gravity(&mut body, &cfg, 10);
    assert!(body.grounded);
    assert_eq!(body.position.y, cfg.ground_height);
    assert_eq!(body.velocity.y, 0);
}

#[test]
fn body_on_the_edge_of_the_platform_is_supported() {
    let cfg = Config::standard();
    let edge = Vec3::new(cfg.platform_half_width, cfg.ground_height, 0);
    assert!(cfg.is_supported(&edge));
    let mut body = airborne_at(&cfg, cfg.platform_half_width, cfg.ground_height, 0, 0);
    apply_gravity(&mut body, &cfg, 16);
    assert!(body.grounded);
    assert_eq!(body.position, edge);
    let mut other = airborne_at(&cfg, -cfg.platform_half_width, cfg.ground_height, -cfg.platform_half_length, 0);
    apply_gravity(&mut other, &cfg, 16);
    assert!(other.grounded);
}

#[test]
fn body_just_past_the_edge_falls() {
    let cfg = Config::standard();
    let past = Vec3::new(cfg.platform_half_width + 1, cfg.ground_height, 0);
    assert!(!cfg.is_supported(&past));
    assert!(!cfg.is_out_of_bounds(&past));
    let mut body = KinematicBody::new(&cfg, 0, 0);
    body.position.x = cfg.platform_half_width + 1;
    apply_gravity(&mut body, &cfg, 16);
    assert!(!body.grounded);
    assert_eq!(body.velocity.y, -480_000);
    assert_eq!(body.position.y, cfg.ground_height - 480_000 * 16);
    assert!(cfg.is_out_of_bounds(&body.position));
    assert_eq!(body.current_state(&cfg), BodyState::FallingOutOfBounds);
}

#[test]
fn grounded_body_stays_put_under_gravity() {
    let cfg = Config::standard();
    let mut body = KinematicBody::new(&cfg, 0, 8 * UNIT);
    let before = body;
    for dt in [0, 1, 16, 1000, MAX_FRAME_MS, i64::MAX] {
        apply_gravity(&mut body, &cfg, dt);
        assert_eq!(body, before);
    }
}

#[test]
fn zero_and_negative_frames_integrate_nothing() {
    let cfg = Config::standard();
    let start = airborne_at(&cfg, 0, 10 * UNIT, 0, -1_000_000);
    for dt in [0, -1, -16, i64::MIN] {
        let mut body = start;
        apply_gravity(&mut body, &cfg, dt);
        assert_eq!(body, start);
        let input = Input { pressed: keys(false, true, false), just_pressed: KeySet::none() };
        move_player(&mut body, &cfg, &input, dt);
        assert_eq!(body, start);
        monitor_fall(&mut body, &cfg, dt);
        assert_eq!(body, start);
    }
}

#[test]
fn long_frames_count_as_the_longest_frame() {
    let cfg = Config::standard();
    let mut a = airborne_at(&cfg, 50 * UNIT, 0, 0, 0);
    let mut b = a;
    apply_gravity(&mut a, &cfg, MAX_FRAME_MS);
    apply_gravity(&mut b, &cfg, MAX_FRAME_MS + 12345);
    assert_eq!(a, b);
    assert_eq!(a.velocity.y, -MAX_SPEED);
}

#[test]
fn speed_and_position_stay_within_limits() {
    let cfg = Config::standard();
    let mut body = airborne_at(&cfg, 50 * UNIT, -WORLD_EXTENT + UNIT, 0, -MAX_SPEED);
    apply_gravity(&mut body, &cfg, 1000);
    assert_eq!(body.velocity.y, -MAX_SPEED);
    assert_eq!(body.position.y, -WORLD_EXTENT);
    assert!(body.is_valid(&cfg));
}

#[test]
fn walking_moves_along_x_only() {
    let cfg = Config::standard();
    let mut body = KinematicBody::new(&cfg, 0, 8 * UNIT);
    let right = Input { pressed: keys(false, true, false), just_pressed: KeySet::none() };
    move_player(&mut body, &cfg, &right, 16);
    assert_eq!(body.position, Vec3::new(128_000_000, cfg.ground_height, 8 * UNIT));
    let left = Input { pressed: keys(true, false, false), just_pressed: KeySet::none() };
    move_player(&mut body, &cfg, &left, 32);
    assert_eq!(body.position, Vec3::new(-128_000_000, cfg.ground_height, 8 * UNIT));
    let both = Input { pressed: keys(true, true, false), just_pressed: KeySet::none() };
    move_player(&mut body, &cfg, &both, 16);
    assert_eq!(body.position.x, -128_000_000);
    assert!(body.grounded);
    assert_eq!(body.velocity, Vec3::zero());
}

#[test]
fn jump_needs_a_fresh_press_on_the_ground() {
    let cfg = Config::standard();
    let mut body = KinematicBody::new(&cfg, 0, 8 * UNIT);
    let held = Input { pressed: keys(false, false, true), just_pressed: KeySet::none() };
    move_player(&mut body, &cfg, &held, 16);
    assert!(body.grounded);
    assert_eq!(body.velocity.y, 0);
    let fresh = Input { pressed: keys(false, false, true), just_pressed: keys(false, false, true) };
    move_player(&mut body, &cfg, &fresh, 16);
    assert!(!body.grounded);
    assert_eq!(body.velocity.y, 12_000_000);
    assert_eq!(body.current_state(&cfg), BodyState::Airborne);
    body.velocity.y = 3_000_000;
    move_player(&mut body, &cfg, &fresh, 16);
    assert_eq!(body.velocity.y, 3_000_000);
    assert!(!body.grounded);
}

#[test]
fn jump_rises_then_lands_again() {
    let cfg = Config::standard();
    let mut body = KinematicBody::new(&cfg, 0, 0);
    let fresh = Input { pressed: keys(false, false, true), just_pressed: keys(false, false, true) };
    move_player(&mut body, &cfg, &fresh, 10);
    apply_gravity(&mut body, &cfg, 10);
    assert_eq!(body.velocity.y, 11_700_000);
    assert_eq!(body.position.y, cfg.ground_height + 117_000_000);
    assert_eq!(body.current_state(&cfg), BodyState::Airborne);
    let mut frames = 1;
    while !body.grounded {
        apply_gravity(&mut body, &cfg, 10);
        monitor_fall(&mut body, &cfg, 10);
        frames += 1;
        assert!(frames < 1000);
    }
    assert_eq!(frames, 79);
    assert_eq!(body.position.y, cfg.ground_height);
    assert_eq!(body.velocity.y, 0);
}

#[test]
fn fall_timer_respawns_at_the_threshold() {
    let cfg = Config::standard();
    let mut body = airborne_at(&cfg, 20 * UNIT, -UNIT, 0, 0);
    for frame in 1..=4 {
        monitor_fall(&mut body, &cfg, 1000);
        assert_eq!(body.fall_elapsed, 1000 * frame);
        assert_eq!(body.position, Vec3::new(20 * UNIT, -UNIT, 0));
        assert_eq!(body.current_state(&cfg), BodyState::FallingOutOfBounds);
    }
    monitor_fall(&mut body, &cfg, 1000);
    assert_eq!(body.position, body.spawn_position);
    assert_eq!(body.position, Vec3::new(0, cfg.ground_height, 8 * UNIT));
    assert_eq!(body.velocity, Vec3::zero());
    assert!(body.grounded);
    assert_eq!(body.fall_elapsed, 0);
}

#[test]
fn fall_timer_respawns_when_a_frame_oversteps_the_threshold() {
    let cfg = Config::standard();
    let mut body = airborne_at(&cfg, 20 * UNIT, -UNIT, 0, -7_000_000);
    body.fall_elapsed = 4_999;
    monitor_fall(&mut body, &cfg, 16);
    assert_eq!(body, KinematicBody::new(&cfg, 0, 8 * UNIT));
}

#[test]
fn fall_timer_does_not_carry_over() {
    let cfg = Config::standard();
    let mut body = airborne_at(&cfg, 20 * UNIT, -UNIT, 0, 0);
    monitor_fall(&mut body, &cfg, 3000);
    assert_eq!(body.fall_elapsed, 3000);
    // Back over the platform, still below the ground: the ground takes it.
    body.position.x = 0;
    apply_gravity(&mut body, &cfg, 16);
    assert!(body.grounded);
    assert_eq!(body.fall_elapsed, 0);
    assert_eq!(body.position.y, cfg.ground_height);
    monitor_fall(&mut body, &cfg, 16);
    assert_eq!(body.fall_elapsed, 0);
    // Out again.
    body.position = Vec3::new(20 * UNIT, -UNIT, 0);
    body.grounded = false;
    monitor_fall(&mut body, &cfg, 3000);
    assert_eq!(body.fall_elapsed, 3000);
    assert_eq!(body.position.x, 20 * UNIT);
}

#[test]
fn fall_timer_is_cleared_in_bounds() {
    let cfg = Config::standard();
    let mut body = airborne_at(&cfg, 20 * UNIT, 3 * UNIT, 0, 0);
    body.fall_elapsed = 1234;
    monitor_fall(&mut body, &cfg, 16);
    assert_eq!(body.fall_elapsed, 0);
    assert_eq!(body.current_state(&cfg), BodyState::Airborne);
}

#[test]
fn depth_alone_does_not_respawn() {
    let cfg = Config::standard();
    let mut body = airborne_at(&cfg, 20 * UNIT, -500 * UNIT, 0, 0);
    monitor_fall(&mut body, &cfg, 16);
    assert_eq!(body.position.y, -500 * UNIT);
    assert_eq!(body.fall_elapsed, 16);
}

#[test]
fn respawn_puts_the_body_back() {
    let cfg = Config::standard();
    let mut body = airborne_at(&cfg, 3 * UNIT, 7 * UNIT, UNIT, 5_000_000);
    body.respawn();
    assert_eq!(body, KinematicBody::new(&cfg, 0, 8 * UNIT));
}

#[test]
fn invalid_bodies_are_recognised() {
    let cfg = Config::standard();
    let good = KinematicBody::new(&cfg, 0, 0);
    let mut b = good;
    b.velocity.y = 1;
    assert!(!b.is_valid(&cfg));
    let mut b = good;
    b.fall_elapsed = 1;
    assert!(!b.is_valid(&cfg));
    let mut b = good;
    b.fall_elapsed = cfg.fall_threshold_ms;
    b.grounded = false;
    assert!(!b.is_valid(&cfg));
    let mut b = good;
    b.position.x = WORLD_EXTENT + 1;
    assert!(!b.is_valid(&cfg));
    let mut b = good;
    b.spawn_position.y = 0;
    assert!(!b.is_valid(&cfg));
}
