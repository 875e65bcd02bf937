use asteroids_core::hud::Hud;
use asteroids_core::math::Vec2;
use asteroids_core::rng::FixedRandom;
use asteroids_core::star_field::StarField;

#[test]
fn hud_tracks_lives_and_score() {
    let mut h = Hud::new();
    assert_eq!(h.player_lives, 0);
    assert_eq!(h.score, 0);
    h.set_lives(3);
    h.set_score(1_250);
    assert_eq!(h.player_lives, 3);
    assert_eq!(h.score, 1_250);
}

#[test]
fn hud_icon_is_the_scaled_arrow() {
    let h = Hud::new();
    assert_eq!(h.object_vertices.len(), 4);
    assert_eq!(h.object_vertices[0], Vec2 { x: 0, y: 9_000 });
    assert_eq!(h.object_vertices[1], Vec2 { x: -6_000, y: -6_000 });
    assert_eq!(h.object_vertices[2], Vec2 { x: 6_000, y: -6_000 });
    let icon = h.build_ship_icon(Vec2 { x: 20_000, y: 38_000 });
    assert_eq!(icon[0], Vec2 { x: 20_000, y: 47_000 });
    assert_eq!(icon[1], Vec2 { x: 14_000, y: 32_000 });
}

#[test]
fn game_over_banner_fades_in_only_without_lives() {
    let mut h = Hud::new();
    h.set_lives(2);
    h.update();
    assert_eq!(h.alpha, 0);
    h.set_lives(0);
    h.update();
    assert_eq!(h.alpha, 25);
    for _ in 0..100 {
        h.update();
    }
    assert!(h.alpha >= 1_000 && h.alpha <= 1_024);
}

#[test]
fn star_field_scatters_stars_over_the_window() {
    let w = Vec2 { x: 1_024_000, y: 768_000 };
    let mut rng = FixedRandom::new(vec![52, 3, 97, 41, 8, 66, 29, 71, 15, 84]);
    let field = StarField::new(&w, &mut rng);
    let n = field.stars.len();
    assert!(n >= 45 && n < 90);
    for s in &field.stars {
        assert!(s.x >= 0 && s.x < w.x);
        assert!(s.y >= 0 && s.y < w.y);
    }
}
