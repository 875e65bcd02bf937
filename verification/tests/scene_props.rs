use asteroids_core::asteroids::Sizes;
use asteroids_core::math::Vec2;
use asteroids_core::rng::{FixedRandom, RandomSource, ThreadRandom};
use asteroids_core::scene::{AsteroidsScene, Key, Transition};

fn window() -> Vec2 {
    Vec2 { x: 1_024_000, y: 768_000 }
}

fn fixed_rng() -> FixedRandom {
    FixedRandom::new(vec![
        7, 13, 42, 5, 99, 1, 3, 11, 19, 23, 31, 2, 8, 50, 77, 21, 4, 9, 16, 25, 36, 49, 64, 81,
    ])
}

fn alive_count(scene: &AsteroidsScene) -> usize {
    scene.asteroids.iter().filter(|a| a.alive).count()
}

#[test]
fn fresh_scene_has_three_large_asteroids_alive() {
    let w = window();
    let mut rng = fixed_rng();
    let scene = AsteroidsScene::new(&w, &mut rng);
    assert_eq!(scene.asteroids.len(), 27);
    assert_eq!(alive_count(&scene), 3);
    for (i, a) in scene.asteroids.iter().enumerate() {
        assert_eq!(a.alive, i < 3);
        assert_eq!(a.size, Sizes::Large);
        assert_eq!(a.hit_radius, 35_000);
    }
    assert_eq!(scene.score, 0);
    assert_eq!(scene.player.lives, 3);
    assert!(scene.transition.is_none());
}

#[test]
fn pool_sizes_are_invariant_across_ticks() {
    let w = window();
    let mut rng = fixed_rng();
    let mut scene = AsteroidsScene::new(&w, &mut rng);
    for tick in 0..25 {
        if tick % 3 == 0 {
            scene.key_down(Key::Up);
        }
        if tick % 4 == 0 {
            scene.key_up(Key::Space);
        }
        if tick % 5 == 0 {
            scene.key_down(Key::Left);
        }
        scene.update(&mut rng);
        assert_eq!(scene.asteroids.len(), 27);
        assert_eq!(scene.player.bullets.len(), 20);
    }
}

#[test]
fn level_clear_rebuilds_exactly_three_large() {
    let w = window();
    let mut rng = fixed_rng();
    let mut scene = AsteroidsScene::new(&w, &mut rng);
    for a in scene.asteroids.iter_mut() {
        a.alive = false;
    }
    scene.update(&mut rng);
    assert_eq!(scene.asteroids.len(), 27);
    assert_eq!(alive_count(&scene), 3);
    for (i, a) in scene.asteroids.iter().enumerate() {
        assert_eq!(a.alive, i < 3);
        if a.alive {
            assert_eq!(a.size, Sizes::Large);
            assert_eq!(a.hit_radius, 35_000);
        }
    }
}

#[test]
fn velocity_stays_clamped_through_scene_ticks() {
    let w = window();
    let mut rng = fixed_rng();
    let mut scene = AsteroidsScene::new(&w, &mut rng);
    for _ in 0..30 {
        scene.key_down(Key::Up);
        scene.key_down(Key::Up);
        scene.update(&mut rng);
        assert!(scene.player.velocity.magnitude() <= 4_000);
    }
}

#[test]
fn restart_signal_arms_only_after_game_over() {
    let w = window();
    let mut rng = fixed_rng();
    let mut scene = AsteroidsScene::new(&w, &mut rng);
    scene.key_down(Key::Return);
    assert!(!scene.should_transition());
    scene.player.lives = 0;
    scene.key_down(Key::Return);
    assert!(scene.should_transition());
    assert_eq!(scene.get_transition(), Some(Transition::Reset));
}

/// Fire a bullet into a Large asteroid standing exactly where the
/// bullet will be: a tick later the rock is dead, the score says 50,
/// and three Medium splits have been recycled out of the pool.
#[test]
fn bullet_kills_large_asteroid_and_spawns_mediums() {
    let w = window();
    let mut rng = fixed_rng();
    let mut scene = AsteroidsScene::new(&w, &mut rng);
    scene.asteroids[1].alive = false;
    scene.asteroids[2].alive = false;
    // The bullet spawns at the nose and flies one step before the
    // collision pass; park the rock on that exact point (distance 0).
    scene.asteroids[0].location = Vec2 { x: 0, y: -28_100 };
    scene.key_up(Key::Space);
    assert!(scene.player.bullets[0].alive);
    scene.update(&mut rng);

    assert_eq!(scene.score, 50);
    assert!(!scene.player.bullets[0].alive);
    assert_eq!(alive_count(&scene), 3);
    for a in scene.asteroids.iter().filter(|a| a.alive) {
        assert_eq!(a.size, Sizes::Medium);
        assert_eq!(a.hit_radius, 17_500);
    }
}

/// Destroying one Large, one Medium and one Small in sequence is
/// worth exactly 50 + 100 + 200.
#[test]
fn score_accumulates_per_tier() {
    let w = window();
    let mut rng = fixed_rng();
    let mut scene = AsteroidsScene::new(&w, &mut rng);

    // Tick one: a Large at the bullet's landing point.
    scene.asteroids[1].alive = false;
    scene.asteroids[2].alive = false;
    scene.asteroids[0].location = Vec2 { x: 0, y: -28_100 };
    scene.key_up(Key::Space);
    scene.update(&mut rng);
    assert_eq!(scene.score, 50);
    assert_eq!(scene.asteroids[0].size, Sizes::Medium);

    // Tick two: keep one of the Medium splits and shoot it.
    scene.asteroids[1].alive = false;
    scene.asteroids[2].alive = false;
    scene.asteroids[0].location = Vec2 { x: 0, y: -28_100 };
    scene.key_up(Key::Space);
    scene.update(&mut rng);
    assert_eq!(scene.score, 150);
    assert_eq!(scene.asteroids[0].size, Sizes::Small);

    // Tick three: keep one of the Small splits and shoot it; a Small
    // queues no further split.
    scene.asteroids[1].alive = false;
    scene.asteroids[2].alive = false;
    scene.asteroids[0].location = Vec2 { x: 0, y: -28_100 };
    scene.key_up(Key::Space);
    scene.update(&mut rng);
    assert_eq!(scene.score, 350);
    assert_eq!(alive_count(&scene), 0);
}

#[test]
fn partial_spawn_with_few_free_slots() {
    let w = window();
    let mut rng = fixed_rng();
    let mut scene = AsteroidsScene::new(&w, &mut rng);
    // Fill the whole pool but slot 0, so the split of slot 0 finds no
    // free slot beyond the one it just vacated.
    for a in scene.asteroids.iter_mut() {
        a.alive = true;
    }
    scene.asteroids[0].location = Vec2 { x: 0, y: -28_100 };
    // Park every other rock far from the ship and the bullet lane.
    for (i, a) in scene.asteroids.iter_mut().enumerate() {
        if i != 0 {
            a.location = Vec2 { x: 400_000, y: 300_000 };
        }
    }
    scene.key_up(Key::Space);
    scene.update(&mut rng);
    assert_eq!(scene.score, 50);
    // 26 still alive from before, plus a single split recycled into
    // the one slot that was free.
    assert_eq!(alive_count(&scene), 27);
    assert_eq!(scene.asteroids[0].size, Sizes::Medium);
}

#[test]
fn thread_random_respects_its_range() {
    let mut rng = ThreadRandom::new();
    for _ in 0..200 {
        let r = rng.next_in_range(-17, 29);
        assert!(r >= -17 && r < 29);
        let s = rng.next_in_range(5, 6);
        assert_eq!(s, 5);
    }
}

#[test]
fn fixed_random_folds_draws_into_the_range() {
    let mut rng = FixedRandom::new(vec![0, 1, -1, 1_000, -1_000, i64::MAX, i64::MIN]);
    for _ in 0..10 {
        let r = rng.next_in_range(10, 20);
        assert!(r >= 10 && r < 20);
    }
}

#[test]
fn thread_random_actually_varies() {
    // Two hundred coin flips landing on the same side would mean the
    // generator is not drawing at all.
    let mut rng = ThreadRandom::new();
    let mut seen_low = false;
    let mut seen_high = false;
    for _ in 0..200 {
        match rng.next_in_range(0, 2) {
            0 => seen_low = true,
            _ => seen_high = true,
        }
    }
    assert!(seen_low && seen_high);
}

/// A rock over the ship costs exactly one life and sends the ship
/// back to the centre at rest; the rock itself survives and the
/// score does not move.
#[test]
fn ship_collision_costs_a_life_and_spares_the_rock() {
    let w = window();
    let mut rng = fixed_rng();
    let mut scene = AsteroidsScene::new(&w, &mut rng);
    scene.asteroids[1].alive = false;
    scene.asteroids[2].alive = false;
    scene.asteroids[0].location = Vec2 { x: 0, y: 10_000 };
    scene.asteroids[0].velocity = Vec2 { x: 0, y: 0 };
    scene.update(&mut rng);
    assert_eq!(scene.player.lives, 2);
    assert_eq!(scene.player.location.x, 0);
    assert_eq!(scene.player.location.y, 0);
    assert_eq!(scene.player.velocity.x, 0);
    assert_eq!(scene.player.velocity.y, 0);
    assert!(scene.asteroids[0].alive);
    assert_eq!(scene.score, 0);
}

/// A live bullet that misses everything flies exactly one velocity
/// step per tick.
#[test]
fn tick_flies_live_bullets_by_their_velocity() {
    let w = window();
    let mut rng = fixed_rng();
    let mut scene = AsteroidsScene::new(&w, &mut rng);
    scene.asteroids[1].alive = false;
    scene.asteroids[2].alive = false;
    // Park the one live rock far from the ship and the bullet lane.
    scene.asteroids[0].location = Vec2 { x: 400_000, y: 300_000 };
    scene.key_up(Key::Space);
    assert_eq!(scene.player.bullets[0].location.y, 366_000);
    scene.update(&mut rng);
    assert!(scene.player.bullets[0].alive);
    assert_eq!(scene.player.bullets[0].location.x, 512_000);
    assert_eq!(scene.player.bullets[0].location.y, 355_900);
    scene.update(&mut rng);
    assert_eq!(scene.player.bullets[0].location.y, 345_800);
}
