use platform_sim::config::Config;
use platform_sim::spawner::{move_velocity, spawn_obstacles, spawn_obstacles_at, Obstacle, SpawnTimer};
use platform_sim::units::{MAX_FRAME_MS, WORLD_EXTENT};
use platform_sim::vec3::Vec3;

const UNIT: i64 = 1_000_000_000;

#[test]
fn timer_fires_when_a_period_has_elapsed() {
    let mut timer = SpawnTimer::new(5000);
    assert!(timer.is_valid());
    assert!(!timer.tick(4999));
    assert_eq!(timer.elapsed, 4999);
    assert!(timer.tick(1));
    assert_eq!(timer.elapsed, 0);
    assert!(!timer.tick(2500));
    assert!(timer.tick(2600));
    assert_eq!(timer.elapsed, 100);
    assert_eq!(timer.period, 5000);
}

#[test]
fn timer_ignores_empty_frames() {
    let mut timer = SpawnTimer::new(5000);
    assert!(!timer.tick(0));
    assert!(!timer.tick(-100));
    assert!(!timer.tick(i64::MIN));
    assert_eq!(timer.elapsed, 0);
}

#[test]
fn timer_fires_once_on_a_spike() {
    let mut timer = SpawnTimer::new(5000);
    assert!(timer.tick(17_300));
    assert_eq!(timer.elapsed, 2300);
    assert!(!timer.tick(100));
    assert_eq!(timer.elapsed, 2400);
    let mut long = SpawnTimer::new(7000);
    assert!(long.tick(i64::MAX));
    assert_eq!(long.elapsed, MAX_FRAME_MS % 7000);
}

#[test]
fn one_obstacle_per_ten_frames_of_a_tenth_period() {
    let cfg = Config::standard();
    for n in [0usize, 1, 9, 10, 11, 57, 100] {
        let mut timer = SpawnTimer::new(cfg.spawn_period_ms);
        let mut obstacles: Vec<Obstacle> = Vec::new();
        for frame in 1..=n {
            let before = obstacles.len();
            let fired = spawn_obstacles_at(&mut timer, &mut obstacles, &cfg, cfg.spawn_period_ms / 10, 0);
            assert_eq!(fired, frame % 10 == 0);
            assert_eq!(obstacles.len(), before + usize::from(fired));
        }
        assert_eq!(obstacles.len(), n / 10);
    }
}

#[test]
fn spike_spawns_a_single_obstacle() {
    let cfg = Config::standard();
    let mut timer = SpawnTimer::new(cfg.spawn_period_ms);
    let mut obstacles: Vec<Obstacle> = Vec::new();
    assert!(spawn_obstacles_at(&mut timer, &mut obstacles, &cfg, 10 * cfg.spawn_period_ms, -UNIT));
    assert_eq!(obstacles.len(), 1);
    assert!(!spawn_obstacles_at(&mut timer, &mut obstacles, &cfg, 16, UNIT));
    assert_eq!(obstacles.len(), 1);
}

#[test]
fn spawned_obstacle_has_the_configured_place_and_velocity() {
    let cfg = Config::standard();
    let mut timer = SpawnTimer::new(cfg.spawn_period_ms);
    let mut obstacles: Vec<Obstacle> = Vec::new();
    assert!(spawn_obstacles_at(&mut timer, &mut obstacles, &cfg, 5000, -3 * UNIT));
    assert_eq!(
        obstacles,
        vec![Obstacle { position: Vec3::new(-3 * UNIT, UNIT / 2, 0), velocity: Vec3::new(0, 0, 3_000_000) }]
    );
}

#[test]
fn random_obstacles_appear_within_the_range() {
    let cfg = Config::standard();
    let mut timer = SpawnTimer::new(cfg.spawn_period_ms);
    let mut obstacles: Vec<Obstacle> = Vec::new();
    for _ in 0..200 {
        assert!(spawn_obstacles(&mut timer, &mut obstacles, &cfg, cfg.spawn_period_ms));
    }
    assert!(!spawn_obstacles(&mut timer, &mut obstacles, &cfg, 1));
    assert_eq!(obstacles.len(), 200);
    for o in &obstacles {
        assert!(-cfg.spawn_x_range <= o.position.x && o.position.x <= cfg.spawn_x_range);
        assert_eq!(o.position.y, cfg.spawn_y);
        assert_eq!(o.position.z, cfg.spawn_z);
        assert_eq!(o.velocity, cfg.obstacle_velocity);
    }
    let first = obstacles[0].position.x;
    assert!(obstacles.iter().any(|o| o.position.x != first));
}

#[test]
fn random_obstacle_with_an_empty_range_appears_at_the_centre() {
    let mut cfg = Config::standard();
    cfg.spawn_x_range = 0;
    assert!(cfg.is_valid());
    let mut timer = SpawnTimer::new(cfg.spawn_period_ms);
    let mut obstacles: Vec<Obstacle> = Vec::new();
    assert!(spawn_obstacles(&mut timer, &mut obstacles, &cfg, 5000));
    assert_eq!(obstacles[0].position.x, 0);
}

#[test]
fn obstacles_move_by_their_velocity() {
    let mut obstacles = vec![
        Obstacle { position: Vec3::new(UNIT, UNIT / 2, 0), velocity: Vec3::new(0, 0, 3_000_000) },
        Obstacle { position: Vec3::new(-UNIT, 0, 5), velocity: Vec3::new(-1_000_000, 2_000_000, 0) },
    ];
    move_velocity(&mut obstacles, 1000);
    assert_eq!(
        obstacles,
        vec![
            Obstacle { position: Vec3::new(UNIT, UNIT / 2, 3 * UNIT), velocity: Vec3::new(0, 0, 3_000_000) },
            Obstacle { position: Vec3::new(-2 * UNIT, 2 * UNIT, 5), velocity: Vec3::new(-1_000_000, 2_000_000, 0) },
        ]
    );
    let before = obstacles.clone();
    move_velocity(&mut obstacles, 0);
    assert_eq!(obstacles, before);
    move_velocity(&mut obstacles, -16);
    assert_eq!(obstacles, before);
}

#[test]
fn obstacles_stop_at_the_end_of_the_world() {
    let mut obstacles =
        vec![Obstacle { position: Vec3::new(0, 0, WORLD_EXTENT - 5), velocity: Vec3::new(0, 0, 3_000_000) }];
    move_velocity(&mut obstacles, 16);
    assert_eq!(obstacles[0].position, Vec3::new(0, 0, WORLD_EXTENT));
    let mut none: Vec<Obstacle> = Vec::new();
    move_velocity(&mut none, 16);
    assert!(none.is_empty());
}
