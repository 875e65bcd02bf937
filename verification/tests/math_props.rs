use asteroids_core::math::{isqrt, Vec2};

#[test]
fn isqrt_exact_squares() {
    assert_eq!(isqrt(0), 0);
    assert_eq!(isqrt(1), 1);
    assert_eq!(isqrt(24), 4);
    assert_eq!(isqrt(25), 5);
    assert_eq!(isqrt(26), 5);
    assert_eq!(isqrt(1_000_000), 1_000);
    assert_eq!(isqrt(i64::MAX), 3_037_000_499);
}

#[test]
fn magnitude_of_three_four_five() {
    let v = Vec2 { x: 3_000, y: 4_000 };
    assert_eq!(v.magnitude(), 5_000);
    let w = Vec2 { x: -3_000, y: 4_000 };
    assert_eq!(w.magnitude(), 5_000);
}

#[test]
fn multiply_and_divide_scale_exactly() {
    let v = Vec2 { x: 2_000, y: -3_000 };
    let doubled = v.multiply(2_000);
    assert_eq!(doubled.x, 4_000);
    assert_eq!(doubled.y, -6_000);
    let halved = v.divide(2_000);
    assert_eq!(halved.x, 1_000);
    assert_eq!(halved.y, -1_500);
}

#[test]
fn rotate_quarter_turn() {
    let v = Vec2 { x: 1_000, y: 0 };
    let r = v.rotate(90_000);
    // The fixed-point sine is exact at the quarter turn.
    assert_eq!(r.x, 0);
    assert_eq!(r.y, 1_000);
    let back = r.rotate(-90_000);
    assert_eq!(back.x, 1_000);
    assert_eq!(back.y, 0);
}

#[test]
fn rotate_half_turn_flips() {
    let v = Vec2 { x: 2_000, y: 0 };
    let r = v.rotate(180_000);
    assert_eq!(r.x, -2_000);
    assert_eq!(r.y, 0);
}

#[test]
fn rotation_never_grows_a_vector() {
    let mut v = Vec2 { x: 18_000, y: 0 };
    let initial = v.magnitude();
    for _ in 0..360 {
        v = v.rotate(7_000);
        assert!(v.magnitude() <= initial);
    }
}

#[test]
fn normalize_lands_on_the_unit_circle() {
    let v = Vec2 { x: 0, y: -18_000 };
    let n = v.normalize();
    assert_eq!(n.x, 0);
    assert_eq!(n.y, -1_000);
    let w = Vec2 { x: 3_000, y: 4_000 };
    let m = w.normalize();
    assert_eq!(m.x, 600);
    assert_eq!(m.y, 800);
}

#[test]
fn limit_rescales_onto_the_cap() {
    let v = Vec2 { x: 3_000, y: 4_000 };
    let capped = v.limit(4_000);
    assert_eq!(capped.x, 2_400);
    assert_eq!(capped.y, 3_200);
    assert_eq!(capped.magnitude(), 4_000);
}

#[test]
fn limit_leaves_slow_vectors_alone() {
    let v = Vec2 { x: 1_000, y: 2_000 };
    let kept = v.limit(4_000);
    assert_eq!(kept.x, 1_000);
    assert_eq!(kept.y, 2_000);
}

#[test]
fn rotate_thirty_degrees_matches_the_half_angle_values() {
    // The fixed-point sine is exact at 30 degrees: sin = 500, and the
    // cosine is the rounded-down root of the remainder: 866.
    let v = Vec2 { x: 1_000, y: 0 };
    let r = v.rotate(30_000);
    assert_eq!(r.y, 500);
    assert_eq!(r.x, 866);
}

#[test]
fn rotate_accepts_negative_and_large_angles() {
    let v = Vec2 { x: 1_000, y: 0 };
    let a = v.rotate(-330_000);
    let b = v.rotate(30_000);
    let c = v.rotate(390_000);
    assert_eq!(a, b);
    assert_eq!(b, c);
}
