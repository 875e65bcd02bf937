//! The player's ship: a triangle that rotates, thrusts, wraps around
//! the screen, fires pooled bullets, trails exhaust, and explodes into
//! particles when an asteroid runs it over.

use crate::asteroids::wrap_coord;
use crate::bullet::Bullet;
use crate::math::{
    half_window, lemma_abs_le_of_sq, lemma_norm_sq_nonneg, lemma_tdiv_le_factor, rot_x, rot_y,
    sqrt_floor, tdiv, Vec2,
};
use crate::particles::{advance_particles, advanced_particles, particle_wf, spawn_burst, Particle};
use crate::rng::RandomSource;
use vstd::prelude::*;

verus! {

/// Bullets in the pool.
pub const NUM_BULLETS: usize = 20;

/// The ship's collision radius, in milli-units (15 units).
pub const PLAYER_HIT_RADIUS: i64 = 15_000;

/// Velocity gained along the nose per thrust command (0.6 units).
pub const THRUST: i64 = 600;

/// The speed the ship is clamped to each tick (4 units).
pub const SPEED_LIMIT: i64 = 4_000;

/// Speed of a fired bullet (10.1 units per tick).
pub const BULLET_SPEED: i64 = 10_100;

/// How far behind the nose an exhaust puff appears (28 units).
pub const EXHAUST_OFFSET: i64 = 28_000;

/// Brightness of a fresh exhaust puff.
pub const EXHAUST_INTENSITY: i64 = 4_000;

/// The exhaust trail keeps at most this many puffs.
pub const EXHAUST_CAP: usize = 10;

/// Squared norm bound of a ship vertex (the nose, 18 units out).
pub const SHIP_NORM_CAP: i64 = 324_000_000;

/// One puff of the exhaust trail: it glows in place and dims, but
/// does not move.
#[derive(Clone, Copy, Debug, PartialEq, Eq, Structural)]
pub struct ExhaustPuff {
    pub position: Vec2,
    pub intensity: i64,
}

/// The direction a vector points, as a (nearly) unit vector in
/// milli-units; the zero vector, having no direction, maps to zero.
pub open spec fn dir_x(v: Vec2) -> int {
    if v.x == 0 && v.y == 0 {
        0
    } else {
        tdiv(v.x * 1000, sqrt_floor(v.norm_sq()))
    }
}

pub open spec fn dir_y(v: Vec2) -> int {
    if v.x == 0 && v.y == 0 {
        0
    } else {
        tdiv(v.y * 1000, sqrt_floor(v.norm_sq()))
    }
}

/// The direction of `v` scaled by `k` milli-units.
pub open spec fn scaled_dir_x(v: Vec2, k: int) -> int {
    tdiv(dir_x(v) * k, 1000)
}

pub open spec fn scaled_dir_y(v: Vec2, k: int) -> int {
    tdiv(dir_y(v) * k, 1000)
}

/// The horizontal velocity after the per-tick speed clamp.
pub open spec fn limited_vx(v: Vec2) -> int {
    if sqrt_floor(v.norm_sq()) <= SPEED_LIMIT {
        v.x as int
    } else {
        tdiv(v.x * SPEED_LIMIT, sqrt_floor(v.norm_sq()))
    }
}

/// The vertical velocity after the per-tick speed clamp.
pub open spec fn limited_vy(v: Vec2) -> int {
    if sqrt_floor(v.norm_sq()) <= SPEED_LIMIT {
        v.y as int
    } else {
        tdiv(v.y * SPEED_LIMIT, sqrt_floor(v.norm_sq()))
    }
}

/// Where the ship's centre stands after one clamped move and the
/// toroidal wrap, computed from the pre-tick state alone.
pub open spec fn moved_px(p: Player) -> int {
    wrap_coord(p.location.x + limited_vx(p.velocity), p.translation.x as int)
}

pub open spec fn moved_py(p: Player) -> int {
    wrap_coord(p.location.y + limited_vy(p.velocity), p.translation.y as int)
}

/// The index of the first inactive slot of a bullet pool at or after
/// `i`, or the pool's length when every slot from `i` on is active.
pub open spec fn first_dead_from(bs: Seq<Bullet>, i: int) -> int
    decreases bs.len() - i,
{
    if i < 0 || i >= bs.len() {
        bs.len() as int
    } else if !bs[i].alive {
        i
    } else {
        first_dead_from(bs, i + 1)
    }
}

/// While every slot before `j` is active, the search from the start
/// and the search from `j` find the same slot.
pub proof fn lemma_first_dead_skip(bs: Seq<Bullet>, j: int)
    requires
        0 <= j <= bs.len(),
        forall|k: int| 0 <= k < j ==> (#[trigger] bs[k]).alive,
    ensures
        first_dead_from(bs, 0) == first_dead_from(bs, j),
    decreases j,
{
    if j > 0 {
        lemma_first_dead_skip(bs, j - 1);
    }
}

pub struct Player {
    pub hit_radius: i64,
    pub lives: i32,
    pub location: Vec2,
    pub velocity: Vec2,
    pub object_vertices: Vec<Vec2>,
    pub world_vertices: Vec<Vec2>,
    pub translation: Vec2,
    pub bullets: Vec<Bullet>,
    pub exhaust: Vec<ExhaustPuff>,
    pub explosion: Vec<Particle>,
}

impl Player {
    /// Structural well-formedness: the fixed radius, a four-vertex
    /// ship whose silhouette never grows, a full pool of bounded
    /// bullets, a capped exhaust trail, healthy particles.
    pub open spec fn wf_core(self) -> bool {
        &&& self.hit_radius == PLAYER_HIT_RADIUS
        &&& self.lives >= 0
        &&& self.object_vertices@.len() == 4
        &&& forall|i: int|
            0 <= i < self.object_vertices@.len() ==> (#[trigger] self.object_vertices@[i]).norm_sq()
                <= SHIP_NORM_CAP
        &&& self.world_vertices@.len() == 4
        &&& forall|i: int|
            0 <= i < self.world_vertices@.len() ==> (#[trigger] self.world_vertices@[i]).bounded(
                8_100_000,
            )
        &&& self.velocity.bounded(2_000_000_000)
        &&& 0 < self.translation.x <= 4_000_000
        &&& 0 < self.translation.y <= 4_000_000
        &&& self.bullets@.len() == NUM_BULLETS
        &&& forall|j: int|
            0 <= j < self.bullets@.len() ==> (#[trigger] self.bullets@[j]).location.bounded(
                10_000_000,
            ) && self.bullets@[j].velocity.bounded(11_000)
        &&& self.exhaust@.len() <= EXHAUST_CAP
        &&& forall|k: int|
            0 <= k < self.exhaust@.len() ==> (#[trigger] self.exhaust@[k]).position.bounded(
                8_200_000,
            ) && 0 <= self.exhaust@[k].intensity <= EXHAUST_INTENSITY
        &&& forall|k: int|
            0 <= k < self.explosion@.len() ==> particle_wf(#[trigger] self.explosion@[k])
    }

    /// The ship stands within `slack` milli-units of the wrapped play
    /// field.
    pub open spec fn loc_within(self, slack: int) -> bool {
        &&& -self.translation.x - slack <= self.location.x <= self.translation.x + slack
        &&& -self.translation.y - slack <= self.location.y <= self.translation.y + slack
    }

    /// Every live bullet stands within `b` of the origin; a bullet
    /// fired from a ship at the screen edge starts a nose-length past
    /// it, so the bound is a little wider than the screen itself.
    pub open spec fn bullets_near(self, b: int) -> bool {
        forall|j: int|
            0 <= j < self.bullets@.len() && (#[trigger] self.bullets@[j]).alive ==> self.bullets@[
                j
            ].location.bounded(b)
    }

    /// Every live bullet stands on the screen, in window coordinates.
    pub open spec fn bullets_in_screen(self) -> bool {
        forall|j: int|
            0 <= j < self.bullets@.len() && (#[trigger] self.bullets@[j]).alive ==> 0
                <= self.bullets@[j].location.x < 2 * self.translation.x && 0 <= self.bullets@[
                j
            ].location.y < 2 * self.translation.y
    }

    /// A fresh ship at the centre of the screen: three lives, a full
    /// pool of inert bullets, no trail and no wreck.
    pub fn new(window_size: &Vec2) -> (p: Player)
        requires
            2 <= window_size.x <= 8_000_000,
            2 <= window_size.y <= 8_000_000,
        ensures
            p.wf_core(),
            p.loc_within(0),
            p.bullets_in_screen(),
            p.lives == 3,
            p.location.x == 0 && p.location.y == 0,
            p.velocity.x == 0 && p.velocity.y == 0,
            p.translation.x == window_size.x / 2,
            p.translation.y == window_size.y / 2,
            forall|j: int|
                0 <= j < p.bullets@.len() ==> !(#[trigger] p.bullets@[j]).alive && p.bullets@[
                    j
                ].location.x == 0 && p.bullets@[j].location.y == 0 && p.bullets@[j].velocity.x == 0
                    && p.bullets@[j].velocity.y == 0,
            p.exhaust@.len() == 0,
            p.explosion@.len() == 0,
            p.object_vertices@[0].x == 0 && p.object_vertices@[0].y == -18_000,
            p.object_vertices@[1].x == 12_000 && p.object_vertices@[1].y == 12_000,
            p.object_vertices@[2].x == -12_000 && p.object_vertices@[2].y == 12_000,
            p.object_vertices@[3].x == 0 && p.object_vertices@[3].y == -18_000,
            p.hit_radius == PLAYER_HIT_RADIUS,
    {
        let translation = half_window(window_size);
        let mut object_vertices: Vec<Vec2> = Vec::new();
        object_vertices.push(Vec2 { x: 0, y: -18_000 });
        object_vertices.push(Vec2 { x: 12_000, y: 12_000 });
        object_vertices.push(Vec2 { x: -12_000, y: 12_000 });
        object_vertices.push(Vec2 { x: 0, y: -18_000 });
        proof {
            let ghost nose = object_vertices@[0];
            let ghost right = object_vertices@[1];
            let ghost left = object_vertices@[2];
            let ghost tail = object_vertices@[3];
            assert(nose.x * nose.x + nose.y * nose.y <= 324_000_000) by (nonlinear_arith)
                requires
                    nose.x == 0,
                    nose.y == -18_000,
            ;
            assert(right.x * right.x + right.y * right.y <= 324_000_000) by (nonlinear_arith)
                requires
                    right.x == 12_000,
                    right.y == 12_000,
            ;
            assert(left.x * left.x + left.y * left.y <= 324_000_000) by (nonlinear_arith)
                requires
                    left.x == -12_000,
                    left.y == 12_000,
            ;
            assert(tail.x * tail.x + tail.y * tail.y <= 324_000_000) by (nonlinear_arith)
                requires
                    tail.x == 0,
                    tail.y == -18_000,
            ;
        }
        let mut world_vertices: Vec<Vec2> = Vec::new();
        let mut i: usize = 0;
        while i < object_vertices.len()
            invariant
                0 <= i <= object_vertices@.len(),
                object_vertices@.len() == 4,
                forall|k: int|
                    0 <= k < object_vertices@.len() ==> (#[trigger] object_vertices@[k]).norm_sq()
                        <= SHIP_NORM_CAP,
                -4_000_000 <= translation.x <= 4_000_000,
                -4_000_000 <= translation.y <= 4_000_000,
                world_vertices@.len() == i,
                forall|k: int|
                    0 <= k < world_vertices@.len() ==> (#[trigger] world_vertices@[k]).bounded(
                        8_100_000,
                    ),
            decreases object_vertices@.len() - i,
        {
            let v = object_vertices[i];
            proof {
                lemma_norm_sq_nonneg(v);
                lemma_abs_le_of_sq(v.x as int, 18_000);
                lemma_abs_le_of_sq(v.y as int, 18_000);
            }
            world_vertices.push(v.plus(translation));
            i = i + 1;
        }
        let mut bullets: Vec<Bullet> = Vec::new();
        let mut j: usize = 0;
        while j < NUM_BULLETS
            invariant
                0 <= j <= NUM_BULLETS,
                bullets@.len() == j,
                forall|k: int|
                    0 <= k < bullets@.len() ==> !(#[trigger] bullets@[k]).alive && bullets@[
                        k
                    ].location.x == 0 && bullets@[k].location.y == 0 && bullets@[k].velocity.x == 0
                        && bullets@[k].velocity.y == 0,
            decreases NUM_BULLETS - j,
        {
            bullets.push(Bullet::new());
            j = j + 1;
        }
        Player {
            hit_radius: PLAYER_HIT_RADIUS,
            lives: 3,
            location: Vec2 { x: 0, y: 0 },
            velocity: Vec2 { x: 0, y: 0 },
            object_vertices,
            world_vertices,
            translation,
            bullets,
            exhaust: Vec::new(),
            explosion: Vec::new(),
        }
    }

    /// Add a force to the velocity, component by component.
    pub fn apply_force(&mut self, v: Vec2)
        requires
            old(self).wf_core(),
            -2_000_000_000 <= old(self).velocity.x + v.x <= 2_000_000_000,
            -2_000_000_000 <= old(self).velocity.y + v.y <= 2_000_000_000,
        ensures
            *final(self) == (Player { velocity: final(self).velocity, ..*old(self) }),
            final(self).velocity.x == old(self).velocity.x + v.x,
            final(self).velocity.y == old(self).velocity.y + v.y,
            final(self).wf_core(),
    {
        self.velocity = self.velocity.plus(v);
    }

    /// Turn the ship: every silhouette vertex rotates by the given
    /// milli-degrees; the screen-space silhouette follows at the next
    /// update.
    pub fn rotate(&mut self, degrees: i64)
        requires
            old(self).wf_core(),
        ensures
            *final(self) == (Player { object_vertices: final(self).object_vertices, ..*old(self) }),
            final(self).object_vertices@.len() == old(self).object_vertices@.len(),
            forall|k: int|
                0 <= k < final(self).object_vertices@.len() ==> (
                #[trigger] final(self).object_vertices@[k]).x == rot_x(
                    old(self).object_vertices@[k],
                    degrees as int,
                ) && final(self).object_vertices@[k].y == rot_y(
                    old(self).object_vertices@[k],
                    degrees as int,
                ),
            final(self).wf_core(),
    {
        let ghost before = self.object_vertices@;
        let mut turned: Vec<Vec2> = Vec::new();
        let mut i: usize = 0;
        while i < self.object_vertices.len()
            invariant
                0 <= i <= self.object_vertices@.len(),
                self.object_vertices@ == before,
                forall|k: int|
                    0 <= k < before.len() ==> (#[trigger] before[k]).norm_sq() <= SHIP_NORM_CAP,
                turned@.len() == i,
                forall|k: int|
                    0 <= k < turned@.len() ==> (#[trigger] turned@[k]).x == rot_x(
                        before[k],
                        degrees as int,
                    ) && turned@[k].y == rot_y(before[k], degrees as int) && turned@[k].norm_sq()
                        <= SHIP_NORM_CAP,
            decreases self.object_vertices@.len() - i,
        {
            let v = self.object_vertices[i];
            proof {
                lemma_norm_sq_nonneg(v);
                lemma_abs_le_of_sq(v.x as int, 18_000);
                lemma_abs_le_of_sq(v.y as int, 18_000);
            }
            turned.push(v.rotate(degrees));
            i = i + 1;
        }
        self.object_vertices = turned;
    }

    /// Where the nose points: the first silhouette vertex, normalized
    /// to (nearly) unit length.  A zero nose would have no direction
    /// and normalizing it would divide by zero, so it maps to the zero
    /// vector instead.
    pub fn get_direction(&self) -> (r: Vec2)
        requires
            self.wf_core(),
        ensures
            r.x == dir_x(self.object_vertices@[0]),
            r.y == dir_y(self.object_vertices@[0]),
            r.bounded(1000),
    {
        let nose = self.object_vertices[0];
        proof {
            lemma_norm_sq_nonneg(nose);
            lemma_abs_le_of_sq(nose.x as int, 18_000);
            lemma_abs_le_of_sq(nose.y as int, 18_000);
        }
        if nose.x == 0 && nose.y == 0 {
            Vec2 { x: 0, y: 0 }
        } else {
            nose.normalize()
        }
    }

    /// Thrust: push the velocity by six tenths of a unit along the
    /// nose, and leave a fresh exhaust puff behind the ship.
    pub fn apply_thrust(&mut self)
        requires
            old(self).wf_core(),
            old(self).location.bounded(4_100_000),
            -1_999_999_000 <= old(self).velocity.x <= 1_999_999_000,
            -1_999_999_000 <= old(self).velocity.y <= 1_999_999_000,
        ensures
            final(self).wf_core(),
            final(self).velocity.x == old(self).velocity.x + scaled_dir_x(
                old(self).object_vertices@[0],
                THRUST as int,
            ),
            final(self).velocity.y == old(self).velocity.y + scaled_dir_y(
                old(self).object_vertices@[0],
                THRUST as int,
            ),
            final(self).exhaust@.len() == vstd::math::min(
                old(self).exhaust@.len() as int + 1,
                EXHAUST_CAP as int,
            ),
            final(self).exhaust@[0].intensity == EXHAUST_INTENSITY,
            final(self).exhaust@[0].position.x == old(self).object_vertices@[0].x + old(self).location.x - scaled_dir_x(old(self).object_vertices@[0], EXHAUST_OFFSET as int),
            final(self).exhaust@[0].position.y == old(self).object_vertices@[0].y + old(self).location.y - scaled_dir_y(old(self).object_vertices@[0], EXHAUST_OFFSET as int),
            forall|k: int|
                1 <= k < final(self).exhaust@.len() ==> final(self).exhaust@[k] == old(self).exhaust@[k - 1],
            *final(self) == (Player {
                velocity: final(self).velocity,
                exhaust: final(self).exhaust,
                ..*old(self)
            }),
    {
        let direction = self.get_direction();
        proof {
            lemma_tdiv_le_factor(direction.x as int, THRUST as int, 1000);
            lemma_tdiv_le_factor(direction.y as int, THRUST as int, 1000);
        }
        let thrust = direction.multiply(THRUST);
        self.apply_force(thrust);
        self.generate_exhaust();
    }

    /// Leave one puff of exhaust behind the nose, dropping the oldest
    /// puff when the trail is full.
    pub fn generate_exhaust(&mut self)
        requires
            old(self).wf_core(),
            old(self).location.bounded(4_100_000),
        ensures
            final(self).wf_core(),
            final(self).exhaust@.len() == vstd::math::min(
                old(self).exhaust@.len() as int + 1,
                EXHAUST_CAP as int,
            ),
            final(self).exhaust@[0].intensity == EXHAUST_INTENSITY,
            final(self).exhaust@[0].position.x == old(self).object_vertices@[0].x + old(self).location.x - scaled_dir_x(old(self).object_vertices@[0], EXHAUST_OFFSET as int),
            final(self).exhaust@[0].position.y == old(self).object_vertices@[0].y + old(self).location.y - scaled_dir_y(old(self).object_vertices@[0], EXHAUST_OFFSET as int),
            forall|k: int|
                1 <= k < final(self).exhaust@.len() ==> final(self).exhaust@[k] == old(self).exhaust@[k - 1],
            *final(self) == (Player { exhaust: final(self).exhaust, ..*old(self) }),
    {
        let head = self.object_vertices[0];
        let direction = self.get_direction();
        proof {
            lemma_norm_sq_nonneg(head);
            lemma_abs_le_of_sq(head.x as int, 18_000);
            lemma_abs_le_of_sq(head.y as int, 18_000);
            lemma_tdiv_le_factor(direction.x as int, EXHAUST_OFFSET as int, 1000);
            lemma_tdiv_le_factor(direction.y as int, EXHAUST_OFFSET as int, 1000);
        }
        let offset = direction.multiply(EXHAUST_OFFSET);
        let puff_position = head.plus(self.location).minus(offset);
        let puff = ExhaustPuff { position: puff_position, intensity: EXHAUST_INTENSITY };
        self.exhaust.insert(0, puff);
        if self.exhaust.len() > EXHAUST_CAP {
            self.exhaust.pop();
        }
    }

    /// Toroidal wrap for the ship, and housekeeping for the bullets:
    /// a live bullet that has left the window is put back to sleep.
    pub fn check_bounds(&mut self)
        requires
            old(self).wf_core(),
            old(self).location.bounded(5_000_000),
        ensures
            final(self).wf_core(),
            final(self).location.x == wrap_coord(
                old(self).location.x as int,
                old(self).translation.x as int,
            ),
            final(self).location.y == wrap_coord(
                old(self).location.y as int,
                old(self).translation.y as int,
            ),
            final(self).loc_within(0),
            final(self).bullets@.len() == old(self).bullets@.len(),
            forall|j: int|
                0 <= j < final(self).bullets@.len() ==> (#[trigger] final(self).bullets@[j]).location
                    == old(self).bullets@[j].location && final(self).bullets@[j].velocity == old(self).bullets@[j].velocity,
            forall|j: int|
                0 <= j < final(self).bullets@.len() ==> ((#[trigger] final(self).bullets@[j]).alive
                    <==> (old(self).bullets@[j].alive && 0 <= old(self).bullets@[j].location.x < 2
                    * old(self).translation.x && 0 <= old(self).bullets@[j].location.y < 2 * old(self).translation.y)),
            final(self).bullets_in_screen(),
            *final(self) == (Player {
                location: final(self).location,
                bullets: final(self).bullets,
                ..*old(self)
            }),
    {
        let screen_width = self.translation.x;
        let screen_height = self.translation.y;
        if self.location.x < -screen_width {
            self.location.x = screen_width;
        }
        if self.location.x > screen_width {
            self.location.x = -screen_width;
        }
        if self.location.y < -screen_height {
            self.location.y = screen_height;
        }
        if self.location.y > screen_height {
            self.location.y = -screen_height;
        }
        let ghost before = self.bullets@;
        let width = 2 * screen_width;
        let height = 2 * screen_height;
        let mut checked: Vec<Bullet> = Vec::new();
        let mut i: usize = 0;
        while i < self.bullets.len()
            invariant
                0 <= i <= self.bullets@.len(),
                self.bullets@ == before,
                width == 2 * self.translation.x,
                height == 2 * self.translation.y,
                checked@.len() == i,
                forall|j: int|
                    0 <= j < (i as int) ==> (#[trigger] checked@[j]).location == before[j].location
                        && checked@[j].velocity == before[j].velocity,
                forall|j: int|
                    0 <= j < (i as int) ==> ((#[trigger] checked@[j]).alive <==> (before[j].alive
                        && 0 <= before[j].location.x < width && 0 <= before[j].location.y
                        < height)),
            decreases self.bullets@.len() - i,
        {
            let mut b = self.bullets[i];
            let out_x = b.location.x < 0 || b.location.x >= width;
            let out_y = b.location.y < 0 || b.location.y >= height;
            if out_x || out_y {
                b.alive = false;
            }
            checked.push(b);
            i = i + 1;
        }
        self.bullets = checked;
    }

    /// The ship is run over: scatter an odd burst of nine to nineteen
    /// particles, reset to the centre at rest, and lose a life (the
    /// counter stops at zero).
    pub fn handle_collsion<R: RandomSource>(&mut self, rng: &mut R)
        requires
            old(self).wf_core(),
            old(self).loc_within(0),
        ensures
            final(self).wf_core(),
            final(self).loc_within(0),
            final(self).location.x == 0 && final(self).location.y == 0,
            final(self).velocity.x == 0 && final(self).velocity.y == 0,
            final(self).lives == (if old(self).lives > 0 {
                old(self).lives - 1
            } else {
                0
            }),
            9 <= final(self).explosion@.len() <= 19,
            final(self).explosion@.len() % 2 == 1,
            forall|k: int|
                0 <= k < final(self).explosion@.len() ==> (
                #[trigger] final(self).explosion@[k]).position == old(self).location,
            forall|k: int|
                0 <= k < final(self).explosion@.len() ==> (
                #[trigger] final(self).explosion@[k]).radius == 12_000,
            forall|k: int|
                0 <= k < final(self).explosion@.len() ==> crate::particles::jittered_velocity(
                    (#[trigger] final(self).explosion@[k]).velocity,
                    k,
                    final(self).explosion@.len() as int,
                ),
            *final(self) == (Player {
                location: final(self).location,
                velocity: final(self).velocity,
                lives: final(self).lives,
                explosion: final(self).explosion,
                ..*old(self)
            }),
    {
        let count = 2 * rng.next_in_range(5, 10) - 1;
        self.explosion = spawn_burst(rng, self.location, count, 12_000);
        self.location = Vec2 { x: 0, y: 0 };
        self.velocity = Vec2 { x: 0, y: 0 };
        self.lives = if self.lives > 0 {
            self.lives - 1
        } else {
            0
        };
    }

    pub fn is_alive(&self) -> (r: bool)
        ensures
            r == (self.lives > 0),
    {
        self.lives > 0
    }

    /// Fire: wake the first inactive bullet at the nose's screen
    /// position, flying at bullet speed along the nose.  With the
    /// whole pool in flight nothing happens.
    pub fn shoot_bullet(&mut self)
        requires
            old(self).wf_core(),
        ensures
            final(self).wf_core(),
            final(self).bullets@.len() == old(self).bullets@.len(),
            *final(self) == (Player { bullets: final(self).bullets, ..*old(self) }),
            first_dead_from(old(self).bullets@, 0) == old(self).bullets@.len() ==> final(self).bullets@ == old(self).bullets@,
            forall|k: int|
                0 <= k < final(self).bullets@.len() && k != first_dead_from(
                    old(self).bullets@,
                    0,
                ) ==> final(self).bullets@[k] == old(self).bullets@[k],
            first_dead_from(old(self).bullets@, 0) < old(self).bullets@.len() ==> {
                let j = first_dead_from(old(self).bullets@, 0);
                &&& final(self).bullets@ == old(self).bullets@.update(j, final(self).bullets@[j])
                &&& final(self).bullets@[j].alive
                &&& final(self).bullets@[j].location == old(self).world_vertices@[0]
                &&& final(self).bullets@[j].velocity.x == scaled_dir_x(
                    old(self).object_vertices@[0],
                    BULLET_SPEED as int,
                )
                &&& final(self).bullets@[j].velocity.y == scaled_dir_y(
                    old(self).object_vertices@[0],
                    BULLET_SPEED as int,
                )
            },
    {
        let direction = self.get_direction();
        proof {
            lemma_tdiv_le_factor(direction.x as int, BULLET_SPEED as int, 1000);
            lemma_tdiv_le_factor(direction.y as int, BULLET_SPEED as int, 1000);
        }
        let velocity = direction.multiply(BULLET_SPEED);
        let location = self.world_vertices[0];
        let ghost before = self.bullets@;
        let n = self.bullets.len();
        let mut i: usize = 0;
        while i < n && self.bullets[i].alive
            invariant
                0 <= i <= n,
                n == self.bullets@.len(),
                self.bullets@ == before,
                forall|k: int| 0 <= k < (i as int) ==> (#[trigger] before[k]).alive,
            decreases n - i,
        {
            i = i + 1;
        }
        proof {
            lemma_first_dead_skip(before, i as int);
        }
        if i < n {
            let b = &mut self.bullets[i];
            b.alive = true;
            b.location = location;
            b.velocity = velocity;
        }
    }

    /// One tick of the ship: clamp the velocity to the speed limit,
    /// drift, rebuild the screen-space silhouette, fly the live
    /// bullets, dim the exhaust, and let the wreck burn down.
    pub fn update(&mut self)
        requires
            old(self).wf_core(),
            old(self).loc_within(0),
            old(self).bullets_near(8_500_000),
        ensures
            final(self).wf_core(),
            final(self).loc_within(SPEED_LIMIT as int),
            crate::math::speed_at_most(final(self).velocity, SPEED_LIMIT as int),
            sqrt_floor(old(self).velocity.norm_sq()) <= SPEED_LIMIT ==> final(self).velocity == old(self).velocity,
            sqrt_floor(old(self).velocity.norm_sq()) > SPEED_LIMIT ==> final(self).velocity.x
                == tdiv(
                old(self).velocity.x * SPEED_LIMIT,
                sqrt_floor(old(self).velocity.norm_sq()),
            ) && final(self).velocity.y == tdiv(
                old(self).velocity.y * SPEED_LIMIT,
                sqrt_floor(old(self).velocity.norm_sq()),
            ),
            final(self).location.x == old(self).location.x + final(self).velocity.x,
            final(self).location.y == old(self).location.y + final(self).velocity.y,
            final(self).world_vertices@.len() == old(self).object_vertices@.len(),
            forall|k: int|
                0 <= k < final(self).world_vertices@.len() ==> (
                #[trigger] final(self).world_vertices@[k]).x == old(self).object_vertices@[k].x
                    + final(self).location.x + final(self).translation.x,
            forall|k: int|
                0 <= k < final(self).world_vertices@.len() ==> (
                #[trigger] final(self).world_vertices@[k]).y == old(self).object_vertices@[k].y
                    + final(self).location.y + final(self).translation.y,
            final(self).bullets@.len() == old(self).bullets@.len(),
            forall|j: int|
                0 <= j < final(self).bullets@.len() ==> (#[trigger] final(self).bullets@[j]).alive
                    == old(self).bullets@[j].alive && final(self).bullets@[j].velocity == old(self).bullets@[j].velocity,
            forall|j: int|
                0 <= j < final(self).bullets@.len() && old(self).bullets@[j].alive ==> (
                #[trigger] final(self).bullets@[j]).location.x == old(self).bullets@[j].location.x
                    + old(self).bullets@[j].velocity.x && final(self).bullets@[j].location.y == old(self).bullets@[j].location.y + old(self).bullets@[j].velocity.y,
            forall|j: int|
                0 <= j < final(self).bullets@.len() && !old(self).bullets@[j].alive ==> (
                #[trigger] final(self).bullets@[j]).location == old(self).bullets@[j].location,
            final(self).exhaust@.len() == old(self).exhaust@.len(),
            forall|k: int|
                0 <= k < final(self).exhaust@.len() ==> (#[trigger] final(self).exhaust@[k]).position
                    == old(self).exhaust@[k].position && final(self).exhaust@[k].intensity == old(self).exhaust@[k].intensity * 2 / 3,
            final(self).explosion@ == advanced_particles(old(self).explosion@),
            final(self).hit_radius == old(self).hit_radius,
            final(self).lives == old(self).lives,
            final(self).object_vertices == old(self).object_vertices,
            final(self).translation == old(self).translation,
    {
        self.velocity = self.velocity.limit(SPEED_LIMIT);
        self.location = self.location.plus(self.velocity);
        let mut world: Vec<Vec2> = Vec::new();
        let mut i: usize = 0;
        while i < self.object_vertices.len()
            invariant
                0 <= i <= self.object_vertices@.len(),
                forall|k: int|
                    0 <= k < self.object_vertices@.len() ==> (
                    #[trigger] self.object_vertices@[k]).norm_sq() <= SHIP_NORM_CAP,
                self.location.bounded(4_004_000),
                -4_000_000 <= self.translation.x <= 4_000_000,
                -4_000_000 <= self.translation.y <= 4_000_000,
                world@.len() == i,
                forall|k: int|
                    0 <= k < world@.len() ==> (#[trigger] world@[k]).x == self.object_vertices@[k].x
                        + self.location.x + self.translation.x && world@[k].y
                        == self.object_vertices@[k].y + self.location.y + self.translation.y
                        && world@[k].bounded(8_100_000),
            decreases self.object_vertices@.len() - i,
        {
            let v = self.object_vertices[i];
            proof {
                lemma_norm_sq_nonneg(v);
                lemma_abs_le_of_sq(v.x as int, 18_000);
                lemma_abs_le_of_sq(v.y as int, 18_000);
            }
            world.push(v.plus(self.location).plus(self.translation));
            i = i + 1;
        }
        self.world_vertices = world;
        let ghost bullets_before = self.bullets@;
        let mut flown: Vec<Bullet> = Vec::new();
        let mut j: usize = 0;
        while j < self.bullets.len()
            invariant
                0 <= j <= self.bullets@.len(),
                self.bullets@ == bullets_before,
                -4_000_000 <= self.translation.x <= 4_000_000,
                -4_000_000 <= self.translation.y <= 4_000_000,
                forall|k: int|
                    0 <= k < bullets_before.len() ==> (#[trigger] bullets_before[k]).location.bounded(
                        10_000_000,
                    ) && bullets_before[k].velocity.bounded(11_000),
                forall|k: int|
                    0 <= k < bullets_before.len() && (#[trigger] bullets_before[k]).alive
                        ==> bullets_before[k].location.bounded(8_500_000),
                flown@.len() == j,
                forall|k: int|
                    0 <= k < (j as int) ==> (#[trigger] flown@[k]).alive == bullets_before[k].alive
                        && flown@[k].velocity == bullets_before[k].velocity,
                forall|k: int|
                    0 <= k < (j as int) && bullets_before[k].alive ==> (
                    #[trigger] flown@[k]).location.x == bullets_before[k].location.x
                        + bullets_before[k].velocity.x && flown@[k].location.y == bullets_before[
                        k
                    ].location.y + bullets_before[k].velocity.y,
                forall|k: int|
                    0 <= k < (j as int) && !bullets_before[k].alive ==> (
                    #[trigger] flown@[k]).location == bullets_before[k].location,
                forall|k: int|
                    0 <= k < (j as int) ==> (#[trigger] flown@[k]).location.bounded(10_000_000),
            decreases self.bullets@.len() - j,
        {
            let mut b = self.bullets[j];
            if b.alive {
                b.location = b.location.plus(b.velocity);
            }
            flown.push(b);
            j = j + 1;
        }
        self.bullets = flown;
        let ghost exhaust_before = self.exhaust@;
        let mut dimmed_trail: Vec<ExhaustPuff> = Vec::new();
        let mut e: usize = 0;
        while e < self.exhaust.len()
            invariant
                0 <= e <= self.exhaust@.len(),
                self.exhaust@ == exhaust_before,
                forall|k: int|
                    0 <= k < exhaust_before.len() ==> (#[trigger] exhaust_before[k]).position.bounded(
                        8_200_000,
                    ) && 0 <= exhaust_before[k].intensity <= EXHAUST_INTENSITY,
                dimmed_trail@.len() == e,
                forall|k: int|
                    0 <= k < (e as int) ==> (#[trigger] dimmed_trail@[k]).position
                        == exhaust_before[k].position && dimmed_trail@[k].intensity
                        == exhaust_before[k].intensity * 2 / 3 && 0 <= dimmed_trail@[k].intensity
                        <= EXHAUST_INTENSITY,
            decreases self.exhaust@.len() - e,
        {
            let mut puff = self.exhaust[e];
            puff.intensity = puff.intensity * 2 / 3;
            dimmed_trail.push(puff);
            e = e + 1;
        }
        self.exhaust = dimmed_trail;
        advance_particles(&mut self.explosion);
    }
}

} // verus!
