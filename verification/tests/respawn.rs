use rand::rngs::StdRng;
use rand::SeedableRng;
use slingshot::layout::generate_layout;
use slingshot::pieces::BodyMode;
use slingshot::respawn::{
    flavor_pool, FLAVOR_FFMPEG, FLAVOR_OPENSSL, FLAVOR_REDIS, FLAVOR_XZ, RESPAWN_DELAY,
};
use slingshot::units::Point;
use slingshot::world::{Countdown, Projectile, World, INTRO};

const FRAME: u64 = 16_666_667;

fn launched_world() -> World {
    let mut world = World::instantiate(&generate_layout());
    world.spawn_projectile();
    let rest = Point::new(-300_000, -120_000);
    assert!(world.press(rest));
    assert!(world.release(Point::new(-340_000, -120_000)).is_some());
    world
}

fn resting() -> Projectile {
    Projectile { pos: Point::new(-300_000, -120_000), on_launcher: true, mode: BodyMode::Kinematic }
}

#[test]
fn delay_is_two_seconds() {
    assert_eq!(RESPAWN_DELAY, 2_000_000_000);
}

#[test]
fn pool_holds_the_four_lines() {
    assert_eq!(flavor_pool(), vec![FLAVOR_XZ, FLAVOR_FFMPEG, FLAVOR_REDIS, FLAVOR_OPENSSL]);
}

#[test]
fn countdown_counts_and_fires_once() {
    let mut c = Countdown::new();
    assert_eq!(c, Countdown { elapsed: 0, finished: false });
    assert!(!c.tick(1_500_000_000));
    assert_eq!(c, Countdown { elapsed: 1_500_000_000, finished: false });
    assert!(!c.tick(499_999_999));
    assert_eq!(c, Countdown { elapsed: 1_999_999_999, finished: false });
    assert!(c.tick(1));
    assert_eq!(c, Countdown { elapsed: 2_000_000_000, finished: true });
    assert!(!c.tick(5));
    assert!(!c.tick(u64::MAX));
    assert_eq!(c, Countdown { elapsed: 2_000_000_000, finished: true });
    c.reset();
    assert_eq!(c, Countdown { elapsed: 0, finished: false });
}

#[test]
fn countdown_takes_any_frame_length() {
    let mut c = Countdown::new();
    assert!(c.tick(u64::MAX));
    assert_eq!(c, Countdown { elapsed: 2_000_000_000, finished: true });
    let mut c = Countdown { elapsed: u64::MAX, finished: false };
    assert!(c.tick(u64::MAX));
    assert_eq!(c, Countdown { elapsed: 2_000_000_000, finished: true });
    let mut c = Countdown::new();
    assert!(!c.tick(0));
    assert_eq!(c, Countdown::new());
}

#[test]
fn resting_projectile_holds_the_countdown_at_zero() {
    let mut world = World::instantiate(&generate_layout());
    world.spawn_projectile();
    world.countdown = Countdown { elapsed: 1_999_999_999, finished: false };
    let mut rng = StdRng::seed_from_u64(1);
    assert!(!world.respawn_due(u64::MAX));
    assert!(!world.respawn_frame(u64::MAX, &mut rng));
    assert_eq!(world.countdown, Countdown::new());
    assert_eq!(world.projectile, Some(resting()));
    assert_eq!(world.message, INTRO);
}

#[test]
fn new_projectile_after_exactly_two_seconds() {
    let mut world = launched_world();
    let launched = world.projectile;
    let mut rng = StdRng::seed_from_u64(2);
    assert!(!world.respawn_frame(1_000_000_000, &mut rng));
    assert!(!world.respawn_frame(999_999_999, &mut rng));
    assert_eq!(world.projectile, launched);
    assert_eq!(world.countdown, Countdown { elapsed: 1_999_999_999, finished: false });
    assert_eq!(world.message, INTRO);
    assert!(world.respawn_due(1));
    assert!(world.respawn_frame(1, &mut rng));
    assert_eq!(world.projectile, Some(resting()));
    assert_eq!(world.countdown, Countdown::new());
}

#[test]
fn new_projectile_within_a_frame_of_two_seconds() {
    let mut world = launched_world();
    let mut rng = StdRng::seed_from_u64(3);
    let mut frames: u64 = 0;
    while !world.respawn_frame(FRAME, &mut rng) {
        frames += 1;
        assert!(frames < 1000);
    }
    frames += 1;
    assert_eq!(frames, 120);
    assert!((frames - 1) * FRAME < RESPAWN_DELAY);
    assert!(frames * FRAME >= RESPAWN_DELAY);
    assert!(!world.respawn_frame(FRAME, &mut rng));
    assert_eq!(world.projectile, Some(resting()));
}

#[test]
fn countdown_starts_at_the_launch() {
    let mut world = World::instantiate(&generate_layout());
    world.spawn_projectile();
    let mut rng = StdRng::seed_from_u64(4);
    for _ in 0..500 {
        assert!(!world.respawn_frame(FRAME, &mut rng));
    }
    assert!(world.press(Point::new(-300_000, -120_000)));
    assert!(!world.respawn_frame(FRAME, &mut rng));
    assert!(world.release(Point::new(-320_000, -120_000)).is_some());
    assert!(!world.respawn_frame(1_999_999_999, &mut rng));
    assert!(world.respawn_frame(1, &mut rng));
}

#[test]
fn new_projectile_where_there_was_none() {
    let mut world = World::instantiate(&generate_layout());
    assert_eq!(world.projectile, None);
    let mut rng = StdRng::seed_from_u64(5);
    assert!(!world.respawn_frame(1_999_999_999, &mut rng));
    assert_eq!(world.projectile, None);
    assert!(world.respawn_frame(1, &mut rng));
    assert_eq!(world.projectile, Some(resting()));
}

#[test]
fn new_projectile_brings_a_line_from_the_pool() {
    let pool = flavor_pool();
    let mut seen = vec![false; pool.len()];
    for seed in 0..64u64 {
        let mut world = launched_world();
        let mut rng = StdRng::seed_from_u64(seed);
        assert!(world.respawn_frame(RESPAWN_DELAY, &mut rng));
        let at = pool.iter().position(|t| *t == world.message);
        assert!(at.is_some());
        seen[at.unwrap()] = true;
    }
    assert_eq!(seen, vec![true; 4]);
}

#[test]
fn the_same_seed_draws_the_same_line() {
    let mut first = launched_world();
    let mut second = launched_world();
    assert!(first.respawn_frame(RESPAWN_DELAY, &mut StdRng::seed_from_u64(99)));
    assert!(second.respawn_frame(RESPAWN_DELAY, &mut StdRng::seed_from_u64(99)));
    assert_eq!(first, second);
}

#[test]
fn nothing_is_drawn_where_nothing_is_due() {
    let mut world = launched_world();
    let mut used = StdRng::seed_from_u64(7);
    let fresh = StdRng::seed_from_u64(7);
    assert!(!world.respawn_frame(5, &mut used));
    assert_eq!(used, fresh);
    assert!(world.respawn_frame(RESPAWN_DELAY, &mut used));
    assert!(used != fresh);
}

#[test]
fn respawn_with_a_given_line() {
    let mut world = launched_world();
    assert!(!world.respawn_with(1_000_000_000, Some(FLAVOR_REDIS)));
    assert_eq!(world.message, INTRO);
    assert!(world.respawn_with(1_000_000_000, Some(FLAVOR_REDIS)));
    assert_eq!(world.message, FLAVOR_REDIS);
    assert_eq!(world.projectile, Some(resting()));
    assert_eq!(world.countdown, Countdown::new());

    let mut world = launched_world();
    assert!(world.respawn_with(RESPAWN_DELAY, None));
    assert_eq!(world.message, INTRO);
}

#[test]
fn a_countdown_that_ran_out_waits_for_a_reset() {
    let mut world = launched_world();
    world.countdown = Countdown { elapsed: 2_000_000_000, finished: true };
    let before = world.clone();
    assert!(!world.respawn_due(RESPAWN_DELAY));
    assert!(!world.respawn_with(RESPAWN_DELAY, Some(FLAVOR_XZ)));
    assert_eq!(world, before);
}

#[test]
fn respawn_leaves_the_structure_alone() {
    let mut world = launched_world();
    let pieces = world.pieces.clone();
    let targets = world.targets.clone();
    let drag = world.drag;
    assert!(world.respawn_with(RESPAWN_DELAY, None));
    assert_eq!(world.pieces, pieces);
    assert_eq!(world.targets, targets);
    assert_eq!(world.drag, drag);
}
