use asteroids_core::asteroids::{Asteroid, Sizes, HIT_RADIUS};
use asteroids_core::math::Vec2;
use asteroids_core::player::Player;
use asteroids_core::rng::FixedRandom;

fn window() -> Vec2 {
    Vec2 { x: 1_024_000, y: 768_000 }
}

fn fixed_rng() -> FixedRandom {
    FixedRandom::new(vec![7, 13, 42, 5, 99, 1, 3, 11, 19, 23, 31, 2, 8, 50, 77, 21])
}

#[test]
fn toroidal_wrap_reflects_to_the_opposite_edge() {
    let w = window();
    let mut rng = fixed_rng();
    let mut a = Asteroid::new(&w, true, &mut rng);
    assert_eq!(a.translation.x, 512_000);
    assert_eq!(a.translation.y, 384_000);

    // half_width = 512: an x of 600 wraps to exactly -512.
    a.location = Vec2 { x: 600_000, y: 100_000 };
    a.check_bounds();
    assert_eq!(a.location.x, -512_000);
    assert_eq!(a.location.y, 100_000);

    a.location = Vec2 { x: -600_000, y: -400_000 };
    a.check_bounds();
    assert_eq!(a.location.x, 512_000);
    assert_eq!(a.location.y, 384_000);

    // On the edge is not beyond it: nothing moves.
    a.location = Vec2 { x: 512_000, y: -384_000 };
    a.check_bounds();
    assert_eq!(a.location.x, 512_000);
    assert_eq!(a.location.y, -384_000);
}

#[test]
fn player_wraps_like_the_asteroids() {
    let w = window();
    let mut p = Player::new(&w);
    p.location = Vec2 { x: 600_000, y: 0 };
    p.check_bounds();
    assert_eq!(p.location.x, -512_000);
    assert_eq!(p.location.y, 0);
}

#[test]
fn collision_is_strictly_inside_the_radius_sum() {
    let w = window();
    let mut rng = fixed_rng();
    let mut a = Asteroid::new(&w, true, &mut rng);
    a.location = Vec2 { x: 0, y: 0 };
    assert_eq!(a.hit_radius, 35_000);

    // Distance equal to the radius sum is no hit.
    let on_the_line = Vec2 { x: 36_000, y: 0 };
    assert!(!a.check_collision(on_the_line, 1_000));

    // One milli-unit closer is a hit.
    let just_inside = Vec2 { x: 35_999, y: 0 };
    assert!(a.check_collision(just_inside, 1_000));

    // A dead asteroid hits nothing.
    a.alive = false;
    assert!(!a.check_collision(Vec2 { x: 0, y: 0 }, 1_000));
}

#[test]
fn split_tiers_shrink_monotonically() {
    let w = window();
    let mut rng = fixed_rng();
    let mut a = Asteroid::new(&w, false, &mut rng);

    a.shrink_asteroid(&Sizes::Large, &mut rng);
    assert_eq!(a.size, Sizes::Medium);
    assert_eq!(a.hit_radius, HIT_RADIUS / 2);
    assert_eq!(a.hit_radius, 17_500);

    a.shrink_asteroid(&Sizes::Medium, &mut rng);
    assert_eq!(a.size, Sizes::Small);
    assert_eq!(a.hit_radius, HIT_RADIUS / 4);
    assert_eq!(a.hit_radius, 8_750);

    // The terminal tier splits into itself.
    a.shrink_asteroid(&Sizes::Small, &mut rng);
    assert_eq!(a.size, Sizes::Small);
    assert_eq!(a.hit_radius, HIT_RADIUS / 8);
    assert_eq!(a.hit_radius, 4_375);
}

#[test]
fn spawned_split_lands_at_the_death_site() {
    let w = window();
    let mut rng = fixed_rng();
    let mut a = Asteroid::new(&w, false, &mut rng);
    let site = Vec2 { x: 100_000, y: -200_000 };
    a.spawn_asteroid(&site, &Sizes::Large, &mut rng);
    assert!(a.alive);
    assert_eq!(a.location.x, 100_000);
    assert_eq!(a.location.y, -200_000);
    assert_eq!(a.size, Sizes::Medium);
    assert_eq!(a.hit_radius, 17_500);
}

#[test]
fn velocity_clamp_holds_under_repeated_thrust() {
    let w = window();
    let mut p = Player::new(&w);
    for _ in 0..60 {
        p.apply_thrust();
        p.update();
        assert!(p.velocity.magnitude() <= 4_000);
    }
}

#[test]
fn thrust_pushes_along_the_nose() {
    let w = window();
    let mut p = Player::new(&w);
    // The nose starts pointing straight up: (0, -18).
    p.apply_thrust();
    assert_eq!(p.velocity.x, 0);
    assert_eq!(p.velocity.y, -600);
    assert_eq!(p.exhaust.len(), 1);
    assert_eq!(p.exhaust[0].intensity, 4_000);
    // The puff appears 28 units behind the nose: -18 - (-28) = 10.
    assert_eq!(p.exhaust[0].position.x, 0);
    assert_eq!(p.exhaust[0].position.y, 10_000);
}

#[test]
fn exhaust_trail_is_capped_at_ten() {
    let w = window();
    let mut p = Player::new(&w);
    for _ in 0..15 {
        p.generate_exhaust();
    }
    assert_eq!(p.exhaust.len(), 10);
}

#[test]
fn fired_bullet_leaves_the_nose_at_full_speed() {
    let w = window();
    let mut p = Player::new(&w);
    p.shoot_bullet();
    assert!(p.bullets[0].alive);
    // Nose world position: centre plus the nose offset.
    assert_eq!(p.bullets[0].location.x, 512_000);
    assert_eq!(p.bullets[0].location.y, 366_000);
    assert_eq!(p.bullets[0].velocity.x, 0);
    assert_eq!(p.bullets[0].velocity.y, -10_100);
    // The rest of the pool is untouched.
    for j in 1..20 {
        assert!(!p.bullets[j].alive);
    }
}

#[test]
fn exhausted_bullet_pool_drops_the_shot() {
    let w = window();
    let mut p = Player::new(&w);
    for _ in 0..25 {
        p.shoot_bullet();
    }
    assert_eq!(p.bullets.len(), 20);
    for j in 0..20 {
        assert!(p.bullets[j].alive);
    }
}

#[test]
fn ship_collision_resets_and_costs_a_life() {
    let w = window();
    let mut rng = fixed_rng();
    let mut p = Player::new(&w);
    p.location = Vec2 { x: 5_000, y: 6_000 };
    p.velocity = Vec2 { x: 1_000, y: 0 };
    p.handle_collsion(&mut rng);
    assert_eq!(p.location.x, 0);
    assert_eq!(p.location.y, 0);
    assert_eq!(p.velocity.x, 0);
    assert_eq!(p.velocity.y, 0);
    assert_eq!(p.lives, 2);
    let n = p.explosion.len();
    assert!(n >= 9 && n <= 19 && n % 2 == 1);

    // The counter stops at zero.
    p.handle_collsion(&mut rng);
    p.handle_collsion(&mut rng);
    assert_eq!(p.lives, 0);
    assert!(!p.is_alive());
    p.handle_collsion(&mut rng);
    assert_eq!(p.lives, 0);
}

#[test]
fn dying_asteroid_scatters_tier_sized_particles() {
    let w = window();
    let mut rng = fixed_rng();
    let mut a = Asteroid::new(&w, true, &mut rng);
    a.handle_collision(&mut rng);
    assert!(!a.alive);
    let n = a.explosion.len();
    assert!(n >= 3 && n < 9);
    for particle in &a.explosion {
        assert_eq!(particle.radius, 24_000);
    }
}

#[test]
fn explosion_particles_decay_and_fade_out() {
    let w = window();
    let mut rng = fixed_rng();
    let mut a = Asteroid::new(&w, true, &mut rng);
    a.handle_collision(&mut rng);
    let first = a.explosion[0].radius;
    a.update();
    assert_eq!(a.explosion[0].radius, first * 5 / 7);
    for _ in 0..40 {
        a.update();
    }
    assert_eq!(a.explosion.len(), 0);
}

#[test]
fn update_keeps_the_screen_silhouette_in_step() {
    let w = window();
    let mut rng = fixed_rng();
    let mut a = Asteroid::new(&w, true, &mut rng);
    let before = a.object_vertices.clone();
    a.update();
    assert_eq!(a.world_vertices.len(), before.len());
    for (k, v) in before.iter().enumerate() {
        assert_eq!(a.world_vertices[k].x, v.x + a.location.x + a.translation.x);
        assert_eq!(a.world_vertices[k].y, v.y + a.location.y + a.translation.y);
    }
}

#[test]
fn a_zero_nose_has_no_direction() {
    // A degenerate silhouette cannot be normalized; the direction
    // falls back to the zero vector and a shot goes nowhere.
    let w = window();
    let mut p = Player::new(&w);
    for v in p.object_vertices.iter_mut() {
        *v = Vec2 { x: 0, y: 0 };
    }
    let d = p.get_direction();
    assert_eq!(d.x, 0);
    assert_eq!(d.y, 0);
    p.shoot_bullet();
    assert!(p.bullets[0].alive);
    assert_eq!(p.bullets[0].velocity.x, 0);
    assert_eq!(p.bullets[0].velocity.y, 0);
}

#[test]
fn rotate_command_turns_the_silhouette() {
    // A quarter turn points the nose from straight up, (0, -18), to
    // along positive x: (18, 0).
    let w = window();
    let mut p = Player::new(&w);
    p.rotate(90_000);
    assert_eq!(p.object_vertices[0].x, 18_000);
    assert_eq!(p.object_vertices[0].y, 0);
    assert_eq!(p.object_vertices[1].x, -12_000);
    assert_eq!(p.object_vertices[1].y, 12_000);
}
