//! Asteroids: procedurally shaped rocks that drift, spin, wrap around
//! the screen, and split into smaller ones when shot.
//!
//! An asteroid lives in a fixed pool slot.  Killing it only clears its
//! flag; the slot is later recycled by `spawn_asteroid` to stand for a
//! smaller split rock with a freshly generated silhouette.

use crate::math::{
    half_window, lemma_abs_le_of_sq, lemma_norm_sq_nonneg, lemma_sq_le_abs, lemma_sqrt_lt,
    lemma_tdiv_exact, lemma_tdiv_one, lemma_tdiv_sq, lemma_tdiv_thousandfold,
    rot_x, rot_y, tdiv,
    Vec2, DEG_FULL, SCALE,
};
use crate::particles::{
    advance_particles, advanced_particles, particle_wf, spawn_burst, Particle,
};
use crate::rng::RandomSource;
use vstd::prelude::*;

verus! {

/// Hit radius of a full-grown asteroid, in milli-units (35 units).
pub const HIT_RADIUS: i64 = 35_000;

/// World-unit scale factor of a generated silhouette (88 units).
pub const SHAPE_SCALE: i64 = 88_000;

/// A generated unit-space vertex has squared norm at most `450^2`.
pub const UNIT_NORM_CAP: i64 = 202_500;

/// A scaled vertex has squared norm at most `(450 * 88)^2`.
pub const VERT_NORM_CAP: i64 = 1_568_160_000;

/// The size tier of an asteroid, in ascending scale.
#[derive(Debug, Clone, Copy, PartialEq, Eq, Structural)]
pub enum Sizes {
    Small,
    Medium,
    Large,
}

/// The starting radius of the explosion particles a dying asteroid
/// of each tier scatters.
pub open spec fn burst_radius(s: Sizes) -> int {
    match s {
        Sizes::Small => 6_000,
        Sizes::Medium => 12_000,
        Sizes::Large => 24_000,
    }
}

/// The radius band a silhouette's vertices are drawn from: the
/// narrow, smoother band one rock in three gets, or the wide one.
pub open spec fn radius_band(lo: int, hi: int) -> bool {
    (lo == 300 && hi == 400) || (lo == 200 && hi == 450)
}

/// Vertex `k` of an `n`-gon silhouette: a drawn radius `r`, laid flat,
/// rotated onto its equal-spacing angle, scaled by `num` and divided
/// by `den` (truncating, like the machine).
pub open spec fn silhouette_vertex(v: Vec2, k: int, n: int, r: int, num: int, den: int) -> bool {
    &&& v.x == tdiv(num * rot_x(Vec2 { x: r as i64, y: 0 }, k * (360_000int / n)), den)
    &&& v.y == tdiv(num * rot_y(Vec2 { x: r as i64, y: 0 }, k * (360_000int / n)), den)
}

/// The vertex is a silhouette vertex for some radius in the band.
pub open spec fn banded_vertex(v: Vec2, k: int, n: int, lo: int, hi: int, num: int, den: int) -> bool {
    exists|r: int| lo <= r < hi && #[trigger] silhouette_vertex(v, k, n, r, num, den)
}

/// A whole silhouette: some band was drawn, and every vertex is a
/// banded radius on its equal-spacing angle, scaled by `num / den`.
pub open spec fn silhouette(vs: Seq<Vec2>, num: int, den: int) -> bool {
    exists|lo: int, hi: int|
        #[trigger] radius_band(lo, hi) && (forall|k: int|
            0 <= k < vs.len() ==> #[trigger] banded_vertex(
                vs[k],
                k,
                vs.len() as int,
                lo,
                hi,
                num,
                den,
            ))
}

/// The scale divisor a split one tier under each parent gets.
pub open spec fn shrink_divisor(s: Sizes) -> int {
    match s {
        Sizes::Large => 2,
        Sizes::Medium => 4,
        Sizes::Small => 8,
    }
}

/// Distance-based hit test: the two centres stand strictly closer
/// than `s` milli-units apart.
pub open spec fn hit_test(a: Vec2, b: Vec2, s: int) -> bool {
    (a.x - b.x) * (a.x - b.x) + (a.y - b.y) * (a.y - b.y) < s * s
}

#[derive(Debug, Clone)]
pub struct Asteroid {
    pub alive: bool,
    pub size: Sizes,
    pub hit_radius: i64,
    pub rotation: i64,
    pub location: Vec2,
    pub velocity: Vec2,
    pub object_vertices: Vec<Vec2>,
    pub world_vertices: Vec<Vec2>,
    pub translation: Vec2,
    pub explosion: Vec<Particle>,
}

impl Asteroid {
    /// Structural well-formedness: a silhouette of 8 to 20 bounded
    /// vertices, a hit radius that matches the tier, bounded spin and
    /// drift, a screen centre from a sane window, and healthy
    /// explosion particles.
    pub open spec fn wf_core(self) -> bool {
        &&& 8 <= self.object_vertices@.len() < 21
        &&& forall|i: int|
            0 <= i < self.object_vertices@.len() ==> (#[trigger] self.object_vertices@[i]).norm_sq()
                <= VERT_NORM_CAP
        &&& (self.size is Large ==> self.hit_radius == HIT_RADIUS)
        &&& (self.size is Medium ==> self.hit_radius == 17_500)
        &&& (self.size is Small ==> self.hit_radius == 8_750 || self.hit_radius == 4_375)
        &&& -1100 <= self.rotation <= 1100
        &&& self.velocity.bounded(500)
        &&& 0 < self.translation.x <= 4_000_000
        &&& 0 < self.translation.y <= 4_000_000
        &&& forall|k: int|
            0 <= k < self.explosion@.len() ==> particle_wf(#[trigger] self.explosion@[k])
    }

    /// The asteroid stands within `slack` milli-units of the wrapped
    /// play field.
    pub open spec fn loc_within(self, slack: int) -> bool {
        &&& -self.translation.x - slack <= self.location.x <= self.translation.x + slack
        &&& -self.translation.y - slack <= self.location.y <= self.translation.y + slack
    }

    /// A fresh full-grown asteroid: random silhouette, spawn point,
    /// drift and spin, alive or held in reserve as the pool requires.
    pub fn new<R: RandomSource>(window_size: &Vec2, alive: bool, rng: &mut R) -> (a: Asteroid)
        requires
            2 <= window_size.x <= 8_000_000,
            2 <= window_size.y <= 8_000_000,
        ensures
            a.wf_core(),
            a.loc_within(0),
            a.alive == alive,
            (a.size is Large),
            a.hit_radius == HIT_RADIUS,
            a.translation.x == window_size.x / 2,
            a.translation.y == window_size.y / 2,
            a.explosion@.len() == 0,
            a.world_vertices@.len() == a.object_vertices@.len(),
            forall|k: int|
                0 <= k < a.world_vertices@.len() ==> (#[trigger] a.world_vertices@[k]).x
                    == a.object_vertices@[k].x + a.translation.x && a.world_vertices@[k].y
                    == a.object_vertices@[k].y + a.translation.y,
            (a.rotation <= -1000 || a.rotation >= 1000),
            -500 < a.velocity.x < 500,
            -500 < a.velocity.y < 500,
            silhouette(a.object_vertices@, 88, 1),
    {
        let translation = half_window(window_size);
        let object_vertices = Asteroid::scaled_vertices(rng);
        let mut world_vertices: Vec<Vec2> = Vec::new();
        let mut i: usize = 0;
        while i < object_vertices.len()
            invariant
                0 <= i <= object_vertices@.len(),
                forall|k: int|
                    0 <= k < object_vertices@.len() ==> (
                    #[trigger] object_vertices@[k]).norm_sq() <= VERT_NORM_CAP,
                -4_000_000 <= translation.x <= 4_000_000,
                -4_000_000 <= translation.y <= 4_000_000,
                world_vertices@.len() == i,
                forall|k: int|
                    0 <= k < world_vertices@.len() ==> (#[trigger] world_vertices@[k]).x
                        == object_vertices@[k].x + translation.x && world_vertices@[k].y
                        == object_vertices@[k].y + translation.y,
            decreases object_vertices@.len() - i,
        {
            let v = object_vertices[i];
            proof {
                lemma_norm_sq_nonneg(v);
                lemma_abs_le_of_sq(v.x as int, 39_601);
                lemma_abs_le_of_sq(v.y as int, 39_601);
            }
            world_vertices.push(v.plus(translation));
            i = i + 1;
        }
        Asteroid {
            alive,
            size: Sizes::Large,
            hit_radius: HIT_RADIUS,
            rotation: Asteroid::get_random_degrees(rng),
            location: Asteroid::get_random_location(&translation, rng),
            velocity: Asteroid::get_random_velocity(rng),
            object_vertices,
            world_vertices,
            translation,
            explosion: Vec::new(),
        }
    }

    /// A random silhouette in unit space: 8 to 20 vertices at equal
    /// angular spacing, each at a jittered radius; one rock in three
    /// draws from the narrower, smoother radius band.
    fn generate_vertices<R: RandomSource>(rng: &mut R) -> (vs: Vec<Vec2>)
        ensures
            8 <= vs@.len() < 21,
            forall|k: int| 0 <= k < vs@.len() ==> (#[trigger] vs@[k]).norm_sq() <= UNIT_NORM_CAP,
            silhouette(vs@, 1, 1),
    {
        let mut vertices: Vec<Vec2> = Vec::new();
        let num_vertices = rng.next_in_range(8, 21);
        proof {
            vstd::arithmetic::div_mod::lemma_div_pos_is_pos(DEG_FULL as int, num_vertices as int);
            vstd::arithmetic::div_mod::lemma_div_nonincreasing(DEG_FULL as int, num_vertices as int);
        }
        let degree_interval = DEG_FULL / num_vertices;
        let is_smooth = rng.next_in_range(0, 3);
        let ghost lo: int = if is_smooth == 0 {
            300
        } else {
            200
        };
        let ghost hi: int = if is_smooth == 0 {
            400
        } else {
            450
        };
        let mut i: i64 = 0;
        while i < num_vertices
            invariant
                0 <= i <= num_vertices,
                8 <= num_vertices < 21,
                0 <= degree_interval <= DEG_FULL,
                degree_interval == 360_000int / (num_vertices as int),
                radius_band(lo, hi),
                lo == (if is_smooth == 0 { 300int } else { 200int }),
                hi == (if is_smooth == 0 { 400int } else { 450int }),
                vertices@.len() == i,
                forall|k: int|
                    0 <= k < vertices@.len() ==> (#[trigger] vertices@[k]).norm_sq()
                        <= UNIT_NORM_CAP,
                forall|k: int|
                    0 <= k < vertices@.len() ==> #[trigger] banded_vertex(
                        vertices@[k],
                        k,
                        num_vertices as int,
                        lo,
                        hi,
                        1,
                        1,
                    ),
            decreases num_vertices - i,
        {
            proof {
                assert(0 <= i * degree_interval <= 21 * 360_000) by (nonlinear_arith)
                    requires
                        0 <= i <= 21,
                        0 <= degree_interval <= 360_000,
                ;
            }
            let deg = i * degree_interval;
            let mag = if is_smooth == 0 {
                rng.next_in_range(300, 400)
            } else {
                rng.next_in_range(200, 450)
            };
            let v = Vec2 { x: mag, y: 0 }.rotate(deg);
            proof {
                lemma_sq_le_abs(mag as int, 450);
                lemma_tdiv_one(1 * rot_x(Vec2 { x: mag, y: 0 }, deg as int));
                lemma_tdiv_one(1 * rot_y(Vec2 { x: mag, y: 0 }, deg as int));
                assert(silhouette_vertex(v, i as int, num_vertices as int, mag as int, 1, 1));
                assert(banded_vertex(v, i as int, num_vertices as int, lo, hi, 1, 1));
            }
            vertices.push(v);
            i = i + 1;
        }
        proof {
            assert(silhouette(vertices@, 1, 1));
        }
        vertices
    }

    /// A silhouette scaled up to world units: every unit vertex times
    /// the shape scale, exactly.
    fn scaled_vertices<R: RandomSource>(rng: &mut R) -> (vs: Vec<Vec2>)
        ensures
            8 <= vs@.len() < 21,
            forall|k: int| 0 <= k < vs@.len() ==> (#[trigger] vs@[k]).norm_sq() <= VERT_NORM_CAP,
            silhouette(vs@, 88, 1),
    {
        let unit = Asteroid::generate_vertices(rng);
        let ghost n = unit@.len() as int;
        let ghost (lo, hi) = choose|lo: int, hi: int|
            #[trigger] radius_band(lo, hi) && (forall|k: int|
                0 <= k < n ==> #[trigger] banded_vertex(unit@[k], k, n, lo, hi, 1, 1));
        let mut scaled: Vec<Vec2> = Vec::new();
        let mut i: usize = 0;
        while i < unit.len()
            invariant
                0 <= i <= unit@.len(),
                8 <= unit@.len() < 21,
                n == unit@.len() as int,
                radius_band(lo, hi),
                forall|k: int|
                    0 <= k < unit@.len() ==> (#[trigger] unit@[k]).norm_sq() <= UNIT_NORM_CAP,
                forall|k: int|
                    0 <= k < n ==> #[trigger] banded_vertex(unit@[k], k, n, lo, hi, 1, 1),
                scaled@.len() == i,
                forall|k: int|
                    0 <= k < scaled@.len() ==> (#[trigger] scaled@[k]).norm_sq() <= VERT_NORM_CAP,
                forall|k: int|
                    0 <= k < scaled@.len() ==> #[trigger] banded_vertex(
                        scaled@[k],
                        k,
                        n,
                        lo,
                        hi,
                        88,
                        1,
                    ),
            decreases unit@.len() - i,
        {
            let v = unit[i];
            proof {
                lemma_norm_sq_nonneg(v);
                lemma_abs_le_of_sq(v.x as int, 450);
                lemma_abs_le_of_sq(v.y as int, 450);
            }
            let w = v.multiply(SHAPE_SCALE);
            proof {
                assert(v.x * SHAPE_SCALE == (v.x * 88) * 1000 && v.y * SHAPE_SCALE == (v.y * 88)
                    * 1000);
                lemma_tdiv_exact(v.x * 88, 1000);
                lemma_tdiv_exact(v.y * 88, 1000);
                assert((v.x * 88) * (v.x * 88) + (v.y * 88) * (v.y * 88) == 7744 * v.norm_sq())
                    by (nonlinear_arith);
                assert(banded_vertex(unit@[i as int], i as int, n, lo, hi, 1, 1));
                let r = choose|r: int|
                    lo <= r < hi && #[trigger] silhouette_vertex(v, i as int, n, r, 1, 1);
                lemma_tdiv_one(1 * rot_x(Vec2 { x: r as i64, y: 0 }, i * (360_000int / n)));
                lemma_tdiv_one(1 * rot_y(Vec2 { x: r as i64, y: 0 }, i * (360_000int / n)));
                lemma_tdiv_one(88 * rot_x(Vec2 { x: r as i64, y: 0 }, i * (360_000int / n)));
                lemma_tdiv_one(88 * rot_y(Vec2 { x: r as i64, y: 0 }, i * (360_000int / n)));
                assert(silhouette_vertex(w, i as int, n, r, 88, 1));
                assert(banded_vertex(w, i as int, n, lo, hi, 88, 1));
            }
            scaled.push(w);
            i = i + 1;
        }
        proof {
            assert(silhouette(scaled@, 88, 1));
        }
        scaled
    }

    /// A spawn point anywhere on the wrapped play field.
    fn get_random_location<R: RandomSource>(translation: &Vec2, rng: &mut R) -> (l: Vec2)
        requires
            0 < translation.x <= 4_000_000,
            0 < translation.y <= 4_000_000,
        ensures
            -translation.x <= l.x <= translation.x,
            -translation.y <= l.y <= translation.y,
    {
        let lx = rng.next_in_range(-translation.x, translation.x + 1);
        let ly = rng.next_in_range(-translation.y, translation.y + 1);
        Vec2 { x: lx, y: ly }
    }

    /// Either `-1` or `1`, each half the time.
    fn get_random_sign<R: RandomSource>(rng: &mut R) -> (s: i64)
        ensures
            s == -1 || s == 1,
    {
        2 * rng.next_in_range(0, 2) - 1
    }

    /// A drift of strictly less than half a unit per tick on each
    /// axis, either way.
    fn get_random_velocity<R: RandomSource>(rng: &mut R) -> (v: Vec2)
        ensures
            v.bounded(500),
            -500 < v.x < 500,
            -500 < v.y < 500,
    {
        let sx = Asteroid::get_random_sign(rng);
        let sy = Asteroid::get_random_sign(rng);
        let mx = rng.next_in_range(0, 500);
        let my = rng.next_in_range(0, 500);
        let vx = if sx >= 0 { mx } else { -mx };
        let vy = if sy >= 0 { my } else { -my };
        Vec2 { x: vx, y: vy }
    }

    /// A spin of one degree and a little per tick, either way.
    fn get_random_degrees<R: RandomSource>(rng: &mut R) -> (d: i64)
        ensures
            -1100 <= d <= 1100,
            d <= -1000 || d >= 1000,
    {
        let sign = Asteroid::get_random_sign(rng);
        let base = rng.next_in_range(0, 100) + 1000;
        if sign >= 0 {
            base
        } else {
            -base
        }
    }

    pub fn is_dead(&self) -> (r: bool)
        ensures
            r == !self.alive,
    {
        !self.alive
    }

    pub fn is_alive(&self) -> (r: bool)
        ensures
            r == self.alive,
    {
        self.alive
    }

    /// Toroidal wrap: a centre that has drifted past an edge of the
    /// play field reappears on the opposite edge, exactly on it.
    pub fn check_bounds(&mut self)
        requires
            0 < old(self).translation.x <= 4_000_000,
            0 < old(self).translation.y <= 4_000_000,
            old(self).location.bounded(5_000_000),
        ensures
            *final(self) == (Asteroid { location: final(self).location, ..*old(self) }),
            final(self).location.x == wrap_coord(
                old(self).location.x as int,
                old(self).translation.x as int,
            ),
            final(self).location.y == wrap_coord(
                old(self).location.y as int,
                old(self).translation.y as int,
            ),
            final(self).loc_within(0),
    {
        let screen_width = self.translation.x;
        let screen_height = self.translation.y;
        if self.location.x < -screen_width {
            self.location.x = screen_width;
        }
        if self.location.x > screen_width {
            self.location.x = -screen_width;
        }
        if self.location.y < -screen_height {
            self.location.y = screen_height;
        }
        if self.location.y > screen_height {
            self.location.y = -screen_height;
        }
    }

    /// True exactly when this asteroid is alive and the point stands
    /// strictly closer than the two radii together: a distance equal
    /// to the sum is no hit.
    pub fn check_collision(&self, vec: Vec2, radius: i64) -> (r: bool)
        requires
            self.location.bounded(5_000_000),
            vec.bounded(5_000_000),
            0 <= radius <= 1_000_000,
            0 <= self.hit_radius <= 1_000_000,
        ensures
            r == (self.alive && hit_test(
                self.location,
                vec,
                self.hit_radius + radius,
            )),
    {
        if !self.alive {
            return false;
        }
        let sum = self.hit_radius + radius;
        let dx = self.location.x - vec.x;
        let dy = self.location.y - vec.y;
        proof {
            lemma_sq_le_abs(dx as int, 10_000_000);
            lemma_sq_le_abs(dy as int, 10_000_000);
            assert(dx * dx >= 0 && dy * dy >= 0) by (nonlinear_arith);
        }
        let a = dx * dx;
        let b = dy * dy;
        let dist = crate::math::isqrt(a + b);
        proof {
            lemma_sqrt_lt((a + b) as int, sum as int);
        }
        dist < sum
    }

    /// Death: clear the flag and scatter three to eight explosion
    /// particles sized by the tier that just died.
    pub fn handle_collision<R: RandomSource>(&mut self, rng: &mut R)
        requires
            old(self).wf_core(),
            old(self).loc_within(0),
        ensures
            *final(self) == (Asteroid {
                alive: false,
                explosion: final(self).explosion,
                ..*old(self)
            }),
            final(self).wf_core(),
            final(self).loc_within(0),
            3 <= final(self).explosion@.len() < 9,
            forall|k: int|
                0 <= k < final(self).explosion@.len() ==> (
                #[trigger] final(self).explosion@[k]).position == old(self).location,
            forall|k: int|
                0 <= k < final(self).explosion@.len() ==> (
                #[trigger] final(self).explosion@[k]).radius == burst_radius(old(self).size),
            forall|k: int|
                0 <= k < final(self).explosion@.len() ==> crate::particles::jittered_velocity(
                    (#[trigger] final(self).explosion@[k]).velocity,
                    k,
                    final(self).explosion@.len() as int,
                ),
    {
        self.alive = false;
        let size: i64 = match self.size {
            Sizes::Small => 6_000,
            Sizes::Medium => 12_000,
            Sizes::Large => 24_000,
        };
        let count = rng.next_in_range(3, 9);
        self.explosion = spawn_burst(rng, self.location, count, size);
    }

    /// Recycle this (dead) slot as a split rock at the death site:
    /// alive again, fresh random drift and spin, one tier smaller.
    pub fn spawn_asteroid<R: RandomSource>(&mut self, location: &Vec2, size: &Sizes, rng: &mut R)
        requires
            old(self).wf_core(),
            -old(self).translation.x <= location.x <= old(self).translation.x,
            -old(self).translation.y <= location.y <= old(self).translation.y,
        ensures
            final(self).wf_core(),
            final(self).loc_within(0),
            final(self).alive,
            final(self).location == *location,
            final(self).translation == old(self).translation,
            final(self).explosion == old(self).explosion,
            (final(self).rotation <= -1000 || final(self).rotation >= 1000),
            -500 < final(self).velocity.x < 500,
            -500 < final(self).velocity.y < 500,
            (*size is Large ==> final(self).size is Medium && final(self).hit_radius == 17_500),
            (*size is Medium ==> final(self).size is Small && final(self).hit_radius == 8_750),
            (*size is Small ==> final(self).size is Small && final(self).hit_radius == 4_375),
            silhouette(final(self).object_vertices@, 88, shrink_divisor(*size)),
            forall|k: int|
                0 <= k < final(self).object_vertices@.len() ==> shrink_divisor(*size)
                    * shrink_divisor(*size) * (#[trigger] final(self).object_vertices@[
                    k
                ]).norm_sq() <= VERT_NORM_CAP,
    {
        self.location = *location;
        self.alive = true;
        self.velocity = Asteroid::get_random_velocity(rng);
        self.rotation = Asteroid::get_random_degrees(rng);
        self.shrink_asteroid(size, rng);
    }

    /// Give the slot a fresh random silhouette and shrink it one tier
    /// below `size`: half scale under a Large parent, quarter under a
    /// Medium one, eighth under a Small one (the terminal tier splits
    /// into itself).
    pub fn shrink_asteroid<R: RandomSource>(&mut self, size: &Sizes, rng: &mut R)
        requires
            old(self).wf_core(),
        ensures
            *final(self) == (Asteroid {
                size: final(self).size,
                hit_radius: final(self).hit_radius,
                object_vertices: final(self).object_vertices,
                ..*old(self)
            }),
            final(self).wf_core(),
            (*size is Large ==> final(self).size is Medium && final(self).hit_radius == 17_500),
            (*size is Medium ==> final(self).size is Small && final(self).hit_radius == 8_750),
            (*size is Small ==> final(self).size is Small && final(self).hit_radius == 4_375),
            8 <= final(self).object_vertices@.len() < 21,
            silhouette(final(self).object_vertices@, 88, shrink_divisor(*size)),
            forall|k: int|
                0 <= k < final(self).object_vertices@.len() ==> shrink_divisor(*size)
                    * shrink_divisor(*size) * (#[trigger] final(self).object_vertices@[
                    k
                ]).norm_sq() <= VERT_NORM_CAP,
    {
        let object_vertices = Asteroid::scaled_vertices(rng);
        let ghost n = object_vertices@.len() as int;
        let ghost (lo, hi) = choose|lo: int, hi: int|
            #[trigger] radius_band(lo, hi) && (forall|k: int|
                0 <= k < n ==> #[trigger] banded_vertex(object_vertices@[k], k, n, lo, hi, 88, 1));
        let (divisor, new_size, new_radius): (i64, Sizes, i64) = match size {
            Sizes::Large => (2 * SCALE, Sizes::Medium, HIT_RADIUS / 2),
            Sizes::Medium => (4 * SCALE, Sizes::Small, HIT_RADIUS / 4),
            Sizes::Small => (8 * SCALE, Sizes::Small, HIT_RADIUS / 8),
        };
        let ghost d = shrink_divisor(*size);
        let mut shrunk: Vec<Vec2> = Vec::new();
        let mut i: usize = 0;
        while i < object_vertices.len()
            invariant
                0 <= i <= object_vertices@.len(),
                8 <= object_vertices@.len() < 21,
                n == object_vertices@.len() as int,
                (d == 2 || d == 4 || d == 8),
                divisor == d * 1000,
                radius_band(lo, hi),
                forall|k: int|
                    0 <= k < object_vertices@.len() ==> (
                    #[trigger] object_vertices@[k]).norm_sq() <= VERT_NORM_CAP,
                forall|k: int|
                    0 <= k < n ==> #[trigger] banded_vertex(
                        object_vertices@[k],
                        k,
                        n,
                        lo,
                        hi,
                        88,
                        1,
                    ),
                shrunk@.len() == i,
                forall|k: int|
                    0 <= k < shrunk@.len() ==> d * d * (#[trigger] shrunk@[k]).norm_sq()
                        <= VERT_NORM_CAP,
                forall|k: int|
                    0 <= k < shrunk@.len() ==> #[trigger] banded_vertex(
                        shrunk@[k],
                        k,
                        n,
                        lo,
                        hi,
                        88,
                        d,
                    ),
            decreases object_vertices@.len() - i,
        {
            let v = object_vertices[i];
            proof {
                lemma_norm_sq_nonneg(v);
                lemma_abs_le_of_sq(v.x as int, 39_601);
                lemma_abs_le_of_sq(v.y as int, 39_601);
            }
            let w = v.divide(divisor);
            proof {
                lemma_tdiv_thousandfold(v.x as int, d);
                lemma_tdiv_thousandfold(v.y as int, d);
                assert(v.x * SCALE == v.x * 1000 && v.y * SCALE == v.y * 1000);
                lemma_tdiv_sq(v.x as int, d);
                lemma_tdiv_sq(v.y as int, d);
                assert(d * d * (w.x * w.x + w.y * w.y) <= v.x * v.x + v.y * v.y)
                    by (nonlinear_arith)
                    requires
                        d * d * (w.x as int) * (w.x as int) <= v.x * v.x,
                        d * d * (w.y as int) * (w.y as int) <= v.y * v.y,
                ;
                assert(banded_vertex(v, i as int, n, lo, hi, 88, 1));
                let r = choose|r: int|
                    lo <= r < hi && #[trigger] silhouette_vertex(v, i as int, n, r, 88, 1);
                lemma_tdiv_one(88 * rot_x(Vec2 { x: r as i64, y: 0 }, i * (360_000int / n)));
                lemma_tdiv_one(88 * rot_y(Vec2 { x: r as i64, y: 0 }, i * (360_000int / n)));
                assert(silhouette_vertex(w, i as int, n, r, 88, d));
                assert(banded_vertex(w, i as int, n, lo, hi, 88, d));
            }
            shrunk.push(w);
            i = i + 1;
        }
        self.object_vertices = shrunk;
        self.size = new_size;
        self.hit_radius = new_radius;
        proof {
            assert(silhouette(self.object_vertices@, 88, d));
            assert forall|k: int| 0 <= k < self.object_vertices@.len() implies (
            #[trigger] self.object_vertices@[k]).norm_sq() <= VERT_NORM_CAP by {
                lemma_norm_sq_nonneg(self.object_vertices@[k]);
                assert(d * d * self.object_vertices@[k].norm_sq() <= VERT_NORM_CAP);
                assert(self.object_vertices@[k].norm_sq() <= VERT_NORM_CAP) by (nonlinear_arith)
                    requires
                        (d == 2 || d == 4 || d == 8),
                        d * d * self.object_vertices@[k].norm_sq() <= VERT_NORM_CAP,
                        self.object_vertices@[k].norm_sq() >= 0,
                        VERT_NORM_CAP == 1_568_160_000,
                ;
            }
        }
    }

    /// One tick: drift by the velocity, rebuild the screen-space
    /// silhouette from the new centre, then spin the object-space
    /// silhouette for the next frame, and let the explosion burn down.
    pub fn update(&mut self)
        requires
            old(self).wf_core(),
            old(self).loc_within(0),
        ensures
            final(self).wf_core(),
            final(self).loc_within(500),
            final(self).location.x == old(self).location.x + old(self).velocity.x,
            final(self).location.y == old(self).location.y + old(self).velocity.y,
            final(self).world_vertices@.len() == old(self).object_vertices@.len(),
            forall|k: int|
                0 <= k < final(self).world_vertices@.len() ==> (
                #[trigger] final(self).world_vertices@[k]).x == old(self).object_vertices@[k].x
                    + final(self).location.x + final(self).translation.x,
            forall|k: int|
                0 <= k < final(self).world_vertices@.len() ==> (
                #[trigger] final(self).world_vertices@[k]).y == old(self).object_vertices@[k].y
                    + final(self).location.y + final(self).translation.y,
            final(self).object_vertices@.len() == old(self).object_vertices@.len(),
            forall|k: int|
                0 <= k < final(self).object_vertices@.len() ==> (
                #[trigger] final(self).object_vertices@[k]).x == rot_x(
                    old(self).object_vertices@[k],
                    old(self).rotation as int,
                ) && final(self).object_vertices@[k].y == rot_y(
                    old(self).object_vertices@[k],
                    old(self).rotation as int,
                ),
            final(self).explosion@ == advanced_particles(old(self).explosion@),
            final(self).alive == old(self).alive,
            final(self).size == old(self).size,
            final(self).hit_radius == old(self).hit_radius,
            final(self).rotation == old(self).rotation,
            final(self).velocity == old(self).velocity,
            final(self).translation == old(self).translation,
    {
        self.location = self.location.plus(self.velocity);
        let ghost loc = self.location;
        let mut world: Vec<Vec2> = Vec::new();
        let mut i: usize = 0;
        while i < self.object_vertices.len()
            invariant
                0 <= i <= self.object_vertices@.len(),
                forall|k: int|
                    0 <= k < self.object_vertices@.len() ==> (
                    #[trigger] self.object_vertices@[k]).norm_sq() <= VERT_NORM_CAP,
                self.location.bounded(4_001_000),
                -4_000_000 <= self.translation.x <= 4_000_000,
                -4_000_000 <= self.translation.y <= 4_000_000,
                world@.len() == i,
                forall|k: int|
                    0 <= k < world@.len() ==> (#[trigger] world@[k]).x == self.object_vertices@[k].x
                        + self.location.x + self.translation.x && world@[k].y
                        == self.object_vertices@[k].y + self.location.y + self.translation.y,
            decreases self.object_vertices@.len() - i,
        {
            let v = self.object_vertices[i];
            proof {
                lemma_norm_sq_nonneg(v);
                lemma_abs_le_of_sq(v.x as int, 39_601);
                lemma_abs_le_of_sq(v.y as int, 39_601);
            }
            world.push(v.plus(self.location).plus(self.translation));
            i = i + 1;
        }
        self.world_vertices = world;
        let ghost before_spin = self.object_vertices@;
        let mut spun: Vec<Vec2> = Vec::new();
        let mut j: usize = 0;
        while j < self.object_vertices.len()
            invariant
                0 <= j <= self.object_vertices@.len(),
                self.object_vertices@ == before_spin,
                forall|k: int|
                    0 <= k < before_spin.len() ==> (#[trigger] before_spin[k]).norm_sq()
                        <= VERT_NORM_CAP,
                -1100 <= self.rotation <= 1100,
                spun@.len() == j,
                forall|k: int|
                    0 <= k < spun@.len() ==> (#[trigger] spun@[k]).x == rot_x(
                        before_spin[k],
                        self.rotation as int,
                    ) && spun@[k].y == rot_y(before_spin[k], self.rotation as int) && spun@[
                        k
                    ].norm_sq() <= VERT_NORM_CAP,
            decreases self.object_vertices@.len() - j,
        {
            let v = self.object_vertices[j];
            proof {
                lemma_norm_sq_nonneg(v);
                lemma_abs_le_of_sq(v.x as int, 39_601);
                lemma_abs_le_of_sq(v.y as int, 39_601);
            }
            spun.push(v.rotate(self.rotation));
            j = j + 1;
        }
        self.object_vertices = spun;
        advance_particles(&mut self.explosion);
    }
}

/// The wrap rule for one axis: past either edge of `[-t, t]` the
/// coordinate lands exactly on the opposite edge; inside it stays put.
pub open spec fn wrap_coord(x: int, t: int) -> int {
    if x < -t {
        t
    } else if x > t {
        -t
    } else {
        x
    }
}

} // verus!
