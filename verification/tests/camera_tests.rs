use platform_sim::camera::{camera_follow, FollowCamera};
use platform_sim::config::Config;
use platform_sim::vec3::Vec3;

const UNIT: i64 = 1_000_000_000;

fn start_camera() -> FollowCamera {
    FollowCamera::new(Vec3::new(-5 * UNIT / 2, 9 * UNIT / 2, 9 * UNIT), Vec3::zero())
}

fn gap(a: Vec3, b: Vec3) -> i64 {
    (a.x - b.x).abs() + (a.y - b.y).abs() + (a.z - b.z).abs()
}

#[test]
fn camera_covers_a_share_of_the_way() {
    let cfg = Config::standard();
    let mut cam = start_camera();
    let body = Vec3::new(0, UNIT / 2, 8 * UNIT);
    // Target (0, 5, 17); 2 per second over 16 ms is 32 thousandths.
    camera_follow(&mut cam, Some(body), &cfg, 16);
    assert_eq!(cam.position, Vec3::new(-2_420_000_000, 4_516_000_000, 9_256_000_000));
    assert_eq!(cam.look_target, body);
}

#[test]
fn camera_steps_round_towards_the_target() {
    let cfg = Config::standard();
    let body = Vec3::new(0, 0, 0);
    let target = Vec3::new(0, 4_500_000_000, 9_000_000_000);
    let mut cam = FollowCamera::new(Vec3::new(7, target.y - 7, target.z + 1001), body);
    // 2 thousandths of 7 round to 1; of 1001 to 3.
    camera_follow(&mut cam, Some(body), &cfg, 1);
    assert_eq!(cam.position, Vec3::new(6, target.y - 6, target.z + 998));
}

#[test]
fn camera_without_a_body_does_nothing() {
    let cfg = Config::standard();
    let mut cam = start_camera();
    camera_follow(&mut cam, None, &cfg, 16);
    assert_eq!(cam, start_camera());
}

#[test]
fn camera_does_not_overshoot_on_long_frames() {
    let cfg = Config::standard();
    let body = Vec3::new(UNIT, UNIT / 2, -3 * UNIT);
    let target = Vec3::new(UNIT, 5 * UNIT, 6 * UNIT);
    for dt in [500, 501, 1000, 60_000, i64::MAX] {
        let mut cam = start_camera();
        camera_follow(&mut cam, Some(body), &cfg, dt);
        assert_eq!(cam.position, target);
        assert_eq!(cam.look_target, body);
    }
}

#[test]
fn camera_stays_put_on_empty_frames() {
    let cfg = Config::standard();
    let body = Vec3::new(UNIT, UNIT / 2, -3 * UNIT);
    for dt in [0, -5, i64::MIN] {
        let mut cam = start_camera();
        camera_follow(&mut cam, Some(body), &cfg, dt);
        assert_eq!(cam.position, start_camera().position);
        assert_eq!(cam.look_target, body);
    }
}

#[test]
fn camera_converges_on_a_body_that_stands_still() {
    let cfg = Config::standard();
    let body = Vec3::new(0, UNIT / 2, 8 * UNIT);
    let target = Vec3::new(0, 5 * UNIT, 17 * UNIT);
    let mut cam = start_camera();
    let mut last = gap(cam.position, target);
    let mut frames = 0;
    while cam.position != target {
        camera_follow(&mut cam, Some(body), &cfg, 16);
        let now = gap(cam.position, target);
        assert!(now < last);
        last = now;
        frames += 1;
        assert!(frames < 2000);
    }
    camera_follow(&mut cam, Some(body), &cfg, 16);
    assert_eq!(cam.position, target);
}

#[test]
fn camera_target_stays_inside_the_world() {
    let cfg = Config::standard();
    let limit = platform_sim::units::WORLD_EXTENT;
    let body = Vec3::new(limit, limit, limit);
    let mut cam = start_camera();
    camera_follow(&mut cam, Some(body), &cfg, 1000);
    assert_eq!(cam.position, Vec3::new(limit, limit, limit));
}
