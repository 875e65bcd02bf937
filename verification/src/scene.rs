//! The scene: the single owner of all gameplay state, and the per-tick
//! rules that evolve it.
//!
//! Each tick the scene moves the player, rebuilds the asteroid pool if
//! the level was cleared, resolves collisions (ship against rocks,
//! bullets against rocks), spawns the queued splits into recycled pool
//! slots, advances every asteroid, and refreshes the display state.

use crate::asteroids::{hit_test, Asteroid, Sizes};
use crate::bullet::Bullet;
use crate::hud::Hud;
use crate::math::{speed_at_most, Vec2};
use crate::player::{limited_vx, limited_vy, moved_px, moved_py, Player, PLAYER_HIT_RADIUS};
use crate::rng::RandomSource;
use crate::star_field::StarField;
use vstd::prelude::*;

verus! {

/// Slots in the asteroid pool.
pub const NUM_ASTEROIDS: usize = 27;

/// How many splits one destroyed rock spawns, at most.
pub const NUM_SPAWN_ASTEROIDS: i64 = 3;

/// A bullet acts as a point with this collision radius (one unit).
pub const BULLET_RADIUS: i64 = 1_000;

/// The score one destroyed asteroid of each tier is worth: the
/// smaller the rock, the higher the reward.
pub open spec fn score_value(s: Sizes) -> int {
    match s {
        Sizes::Large => 50,
        Sizes::Medium => 100,
        Sizes::Small => 200,
    }
}

/// The most the score can grow in one tick: each pool slot can be
/// destroyed, and credited, at most once per pass.
pub const SCORE_TICK_CAP: i64 = 5_400;

/// The one-shot signal the scene hands to its orchestrator: tear the
/// scene down and build a fresh one.
#[derive(Clone, Copy, Debug, PartialEq, Eq, Structural)]
pub enum Transition {
    Reset,
}

/// The keys the input collaborator reports, as plain commands.
#[derive(Clone, Copy, Debug, PartialEq, Eq, Structural)]
pub enum Key {
    Left,
    Right,
    Up,
    Return,
    Space,
}

/// Every slot of the pool is dead: the level is cleared.
pub open spec fn all_dead(s: Seq<Asteroid>) -> bool {
    forall|i: int| 0 <= i < s.len() ==> !(#[trigger] s[i]).alive
}

/// No bullet is in flight.
pub open spec fn no_live_bullets(bs: Seq<Bullet>) -> bool {
    forall|j: int| 0 <= j < bs.len() ==> !(#[trigger] bs[j]).alive
}

/// The bullet, translated into the asteroid's ship-relative
/// coordinates, strikes the asteroid.
pub open spec fn bullet_hits(a: Asteroid, b: Bullet, t: Vec2) -> bool {
    b.alive && hit_test(
        a.location,
        Vec2 { x: (b.location.x - t.x) as i64, y: (b.location.y - t.y) as i64 },
        a.hit_radius + BULLET_RADIUS,
    )
}

/// The first bullet at or after `j` that strikes the asteroid, or the
/// pool's length when none does.
pub open spec fn first_hit_from(a: Asteroid, bs: Seq<Bullet>, t: Vec2, j: int) -> int
    decreases bs.len() - j,
{
    if j < 0 || j >= bs.len() {
        bs.len() as int
    } else if bullet_hits(a, bs[j], t) {
        j
    } else {
        first_hit_from(a, bs, t, j + 1)
    }
}

/// The search lands on a pool index or just past the end.
pub proof fn lemma_first_hit_range(a: Asteroid, bs: Seq<Bullet>, t: Vec2, j: int)
    requires
        0 <= j <= bs.len(),
    ensures
        j <= first_hit_from(a, bs, t, j) <= bs.len(),
    decreases bs.len() - j,
{
    if j < bs.len() && !bullet_hits(a, bs[j], t) {
        lemma_first_hit_range(a, bs, t, j + 1);
    }
}

/// While no bullet before `j` strikes, the search from the start and
/// the search from `j` agree.
pub proof fn lemma_first_hit_skip(a: Asteroid, bs: Seq<Bullet>, t: Vec2, j: int)
    requires
        0 <= j <= bs.len(),
        forall|k: int| 0 <= k < j ==> !bullet_hits(a, #[trigger] bs[k], t),
    ensures
        first_hit_from(a, bs, t, 0) == first_hit_from(a, bs, t, j),
    decreases j,
{
    if j > 0 {
        lemma_first_hit_skip(a, bs, t, j - 1);
    }
}

/// The tier a split one step below each parent gets.
pub open spec fn split_size(s: Sizes) -> Sizes {
    match s {
        Sizes::Large => Sizes::Medium,
        Sizes::Medium => Sizes::Small,
        Sizes::Small => Sizes::Small,
    }
}

/// The hit radius that goes with the split tier under each parent.
pub open spec fn split_radius(s: Sizes) -> int {
    match s {
        Sizes::Large => 17_500,
        Sizes::Medium => 8_750,
        Sizes::Small => 4_375,
    }
}

/// A bullet after the player phase of a tick: a live one flies by its
/// velocity and goes back to sleep if that puts it off the window; a
/// sleeping one stays put.
pub open spec fn flown_bullet(b: Bullet, t: Vec2) -> Bullet {
    let location = if b.alive {
        Vec2 { x: (b.location.x + b.velocity.x) as i64, y: (b.location.y + b.velocity.y) as i64 }
    } else {
        b.location
    };
    Bullet {
        location,
        velocity: b.velocity,
        alive: b.alive && 0 <= location.x < 2 * t.x && 0 <= location.y < 2 * t.y,
    }
}

/// The deterministic skeleton the collision pass drives: the ship's
/// centre, velocity and lives, the bullet pool, the running score,
/// the split queue, and which visited slots were destroyed.
pub struct PassState {
    pub ship: Vec2,
    pub ship_velocity: Vec2,
    pub lives: int,
    pub bullets: Seq<Bullet>,
    pub score: int,
    pub queue: Seq<(Sizes, Vec2)>,
    pub kills: Seq<bool>,
}

/// A live rock against the ship: standing strictly closer than the
/// two radii together costs one life (the counter stops at zero) and
/// puts the ship back at the centre, at rest.  The rock survives.
pub open spec fn ship_hit_state(s: PassState, a: Asteroid, pr: int) -> PassState {
    if hit_test(a.location, s.ship, a.hit_radius + pr) {
        PassState {
            ship: Vec2 { x: 0, y: 0 },
            ship_velocity: Vec2 { x: 0, y: 0 },
            lives: if s.lives > 0 {
                s.lives - 1
            } else {
                0
            },
            ..s
        }
    } else {
        s
    }
}

/// A live rock against the bullet pool: the first bullet in flight
/// that strikes dies with the rock, the tier's value is credited, and
/// a split is queued unless the rock was already of the terminal
/// tier.  With no striking bullet nothing changes.
pub open spec fn bullet_hit_state(s: PassState, a: Asteroid, t: Vec2) -> PassState {
    let h = first_hit_from(a, s.bullets, t, 0);
    if h < s.bullets.len() {
        PassState {
            bullets: s.bullets.update(h, Bullet { alive: false, ..s.bullets[h] }),
            score: s.score + score_value(a.size),
            queue: if !(a.size is Small) {
                s.queue.push((a.size, a.location))
            } else {
                s.queue
            },
            kills: s.kills.push(true),
            ..s
        }
    } else {
        PassState { kills: s.kills.push(false), ..s }
    }
}

/// One slot of the collision pass: a dead slot is skipped; a live
/// rock plays first against the ship, then against the bullet pool.
pub open spec fn pass_step(s: PassState, a: Asteroid, pr: int, t: Vec2) -> PassState {
    if !a.alive {
        PassState { kills: s.kills.push(false), ..s }
    } else {
        bullet_hit_state(ship_hit_state(s, a, pr), a, t)
    }
}

/// The collision pass over the first `n` pool slots, in pool order.
pub open spec fn pass_upto(
    pool: Seq<Asteroid>,
    n: int,
    init: PassState,
    pr: int,
    t: Vec2,
) -> PassState
    decreases n,
{
    if n <= 0 {
        init
    } else {
        pass_step(pass_upto(pool, n - 1, init, pr, t), pool[n - 1], pr, t)
    }
}

/// One queued split scanning the pool from slot `k` with `left`
/// spawns in its budget: each inactive slot found is reactivated
/// (first-fit) and recorded; with the budget gone or the pool ended
/// the rest is silently skipped.
pub open spec fn spawn_scan(
    alive: Seq<bool>,
    assign: Seq<Option<(Sizes, Vec2)>>,
    split: (Sizes, Vec2),
    k: int,
    left: int,
) -> (Seq<bool>, Seq<Option<(Sizes, Vec2)>>)
    decreases alive.len() - k,
{
    if k < 0 || k >= alive.len() || left <= 0 {
        (alive, assign)
    } else if !alive[k] {
        spawn_scan(alive.update(k, true), assign.update(k, Some(split)), split, k + 1, left - 1)
    } else {
        spawn_scan(alive, assign, split, k + 1, left)
    }
}

/// The whole split queue drained most-recent-first, each split
/// reactivating up to three inactive slots first-fit by index.
pub open spec fn drain_splits(
    alive: Seq<bool>,
    assign: Seq<Option<(Sizes, Vec2)>>,
    queue: Seq<(Sizes, Vec2)>,
) -> (Seq<bool>, Seq<Option<(Sizes, Vec2)>>)
    decreases queue.len(),
{
    if queue.len() == 0 {
        (alive, assign)
    } else {
        let stepped = spawn_scan(alive, assign, queue.last(), 0, 3);
        drain_splits(stepped.0, stepped.1, queue.drop_last())
    }
}

/// No live asteroid reaches the ship this tick: the ship's moved and
/// wrapped centre stands clear of every rock that is alive going in.
pub open spec fn player_clear(s: AsteroidsScene) -> bool {
    forall|i: int|
        0 <= i < s.asteroids@.len() && (#[trigger] s.asteroids@[i]).alive ==> !hit_test(
            s.asteroids@[i].location,
            Vec2 {
                x: crate::player::moved_px(s.player) as i64,
                y: crate::player::moved_py(s.player) as i64,
            },
            s.asteroids@[i].hit_radius + s.player.hit_radius,
        )
}

pub struct AsteroidsScene {
    pub window_size: Vec2,
    pub player: Player,
    pub asteroids: Vec<Asteroid>,
    pub hud: Hud,
    pub score: i64,
    pub star_field: StarField,
    pub transition: Option<Transition>,
}

impl AsteroidsScene {
    /// The scene's invariant: a sane window, a well-formed wrapped
    /// player with its bullets on screen, a pool of exactly 27
    /// well-formed wrapped asteroids sharing the player's screen
    /// translation, a well-formed display, and a score that never
    /// goes negative.
    pub open spec fn wf(self) -> bool {
        &&& 2 <= self.window_size.x <= 8_000_000
        &&& 2 <= self.window_size.y <= 8_000_000
        &&& self.player.wf_core()
        &&& self.player.loc_within(0)
        &&& self.player.bullets_near(8_200_000)
        &&& self.player.translation.x == self.window_size.x / 2
        &&& self.player.translation.y == self.window_size.y / 2
        &&& self.asteroids@.len() == NUM_ASTEROIDS
        &&& forall|i: int|
            0 <= i < self.asteroids@.len() ==> (#[trigger] self.asteroids@[i]).wf_core()
                && self.asteroids@[i].loc_within(0) && self.asteroids@[i].translation
                == self.player.translation
        &&& self.hud.wf()
        &&& 0 <= self.score
    }

    /// A fresh scene: the player at the centre with three lives, a
    /// pool of 27 full-grown asteroids of which exactly the first 3
    /// are alive, no score, no pending transition.
    pub fn new<R: RandomSource>(window_size: &Vec2, rng: &mut R) -> (s: AsteroidsScene)
        requires
            2 <= window_size.x <= 8_000_000,
            2 <= window_size.y <= 8_000_000,
        ensures
            s.wf(),
            s.window_size == *window_size,
            s.score == 0,
            s.transition is None,
            s.player.lives == 3,
            s.player.location.x == 0 && s.player.location.y == 0,
            s.player.velocity.x == 0 && s.player.velocity.y == 0,
            no_live_bullets(s.player.bullets@),
            forall|i: int|
                0 <= i < s.asteroids@.len() ==> ((#[trigger] s.asteroids@[i]).alive <==> i < 3),
            forall|i: int| 0 <= i < s.asteroids@.len() ==> (#[trigger] s.asteroids@[i]).size is Large,
    {
        AsteroidsScene {
            window_size: *window_size,
            player: Player::new(window_size),
            asteroids: AsteroidsScene::initialize_asteroids(window_size, rng),
            hud: Hud::new(),
            score: 0,
            star_field: StarField::new(window_size, rng),
            transition: None,
        }
    }

    /// A full pool: 27 fresh full-grown asteroids, the first 3 alive
    /// and the rest held in reserve for splits.
    fn initialize_asteroids<R: RandomSource>(window_size: &Vec2, rng: &mut R) -> (v: Vec<Asteroid>)
        requires
            2 <= window_size.x <= 8_000_000,
            2 <= window_size.y <= 8_000_000,
        ensures
            v@.len() == NUM_ASTEROIDS,
            forall|i: int|
                0 <= i < v@.len() ==> (#[trigger] v@[i]).wf_core() && v@[i].loc_within(0) && v@[
                    i
                ].translation.x == window_size.x / 2 && v@[i].translation.y == window_size.y / 2,
            forall|i: int| 0 <= i < v@.len() ==> ((#[trigger] v@[i]).alive <==> i < 3),
            forall|i: int|
                0 <= i < v@.len() ==> (#[trigger] v@[i]).size is Large && v@[i].hit_radius
                    == crate::asteroids::HIT_RADIUS,
    {
        let mut v: Vec<Asteroid> = Vec::new();
        let mut i: usize = 0;
        while i < NUM_ASTEROIDS
            invariant
                0 <= i <= NUM_ASTEROIDS,
                2 <= window_size.x <= 8_000_000,
                2 <= window_size.y <= 8_000_000,
                v@.len() == i,
                forall|k: int|
                    0 <= k < v@.len() ==> (#[trigger] v@[k]).wf_core() && v@[k].loc_within(0) && v@[
                        k
                    ].translation.x == window_size.x / 2 && v@[k].translation.y == window_size.y
                        / 2,
                forall|k: int| 0 <= k < v@.len() ==> ((#[trigger] v@[k]).alive <==> k < 3),
                forall|k: int|
                    0 <= k < v@.len() ==> (#[trigger] v@[k]).size is Large && v@[k].hit_radius
                        == crate::asteroids::HIT_RADIUS,
            decreases NUM_ASTEROIDS - i,
        {
            v.push(Asteroid::new(window_size, i < 3, rng));
            i = i + 1;
        }
        v
    }

    /// Play one asteroid against the whole bullet pool, in pool
    /// order.  The first bullet in flight that strikes kills the
    /// asteroid, dies itself, credits the tier's score, and queues a
    /// split unless the rock was already of the terminal tier; every
    /// later bullet then sees a dead asteroid and nothing further
    /// happens — so at most one bullet is spent per asteroid per tick.
    fn resolve_bullets<R: RandomSource>(
        asteroid: &mut Asteroid,
        bullets: &mut Vec<Bullet>,
        translation: Vec2,
        score: &mut i64,
        spawn_queue: &mut Vec<(Sizes, Vec2)>,
        rng: &mut R,
    )
        requires
            old(asteroid).wf_core(),
            old(asteroid).loc_within(0),
            old(bullets)@.len() == crate::player::NUM_BULLETS,
            forall|j: int|
                0 <= j < old(bullets)@.len() ==> (#[trigger] old(bullets)@[j]).location.bounded(
                    10_000_000,
                ),
            forall|j: int|
                0 <= j < old(bullets)@.len() && (#[trigger] old(bullets)@[j]).alive ==> 0 <= old(bullets)@[j].location.x < 2 * translation.x && 0 <= old(bullets)@[j].location.y < 2
                    * translation.y,
            old(asteroid).translation == translation,
            0 < translation.x <= 4_000_000,
            0 < translation.y <= 4_000_000,
            0 <= *old(score) <= i64::MAX - 200,
        ensures
            ({
                let h = first_hit_from(*old(asteroid), old(bullets)@, translation, 0);
                &&& (!old(asteroid).alive || h == old(bullets)@.len()) ==> (*final(asteroid)
                    == *old(asteroid) && final(bullets)@ == old(bullets)@ && *final(score) == *old(score) && final(spawn_queue)@ == old(spawn_queue)@)
                &&& (old(asteroid).alive && h < old(bullets)@.len()) ==> (
                !final(asteroid).alive && final(bullets)@ == old(bullets)@.update(
                    h,
                    final(bullets)@[h],
                ) && !final(bullets)@[h].alive && final(bullets)@[h].location == old(bullets)@[
                    h
                ].location && final(bullets)@[h].velocity == old(bullets)@[h].velocity && *final(score) == *old(score) + score_value(old(asteroid).size) && (if !(old(asteroid).size
                    is Small) {
                    final(spawn_queue)@ == old(spawn_queue)@.push(
                        (old(asteroid).size, old(asteroid).location),
                    )
                } else {
                    final(spawn_queue)@ == old(spawn_queue)@
                }))
            }),
            final(asteroid).wf_core(),
            final(asteroid).loc_within(0),
            final(asteroid).size == old(asteroid).size,
            final(asteroid).hit_radius == old(asteroid).hit_radius,
            final(asteroid).location == old(asteroid).location,
            final(asteroid).translation == old(asteroid).translation,
            final(asteroid).velocity == old(asteroid).velocity,
            final(asteroid).alive ==> old(asteroid).alive,
            final(bullets)@.len() == old(bullets)@.len(),
            forall|j: int|
                0 <= j < final(bullets)@.len() && (#[trigger] final(bullets)@[j]).alive ==> old(bullets)@[j].alive && final(bullets)@[j] == old(bullets)@[j],
            forall|j: int|
                0 <= j < final(bullets)@.len() ==> (#[trigger] final(bullets)@[j]).location == old(bullets)@[j].location && final(bullets)@[j].velocity == old(bullets)@[j].velocity,
            *old(score) <= *final(score) <= *old(score) + 200,
            old(spawn_queue)@.len() <= final(spawn_queue)@.len() <= old(spawn_queue)@.len() + 1,
            forall|q: int|
                0 <= q < old(spawn_queue)@.len() ==> final(spawn_queue)@[q] == old(spawn_queue)@[q],
            forall|q: int|
                old(spawn_queue)@.len() <= q < final(spawn_queue)@.len() ==> -translation.x <= (
                #[trigger] final(spawn_queue)@[q]).1.x <= translation.x && -translation.y <= final(spawn_queue)@[q].1.y <= translation.y,
    {
        let ghost orig_a = *asteroid;
        let ghost orig_b = bullets@;
        if !asteroid.is_alive() {
            return ;
        }
        let mut j: usize = 0;
        while j < bullets.len()
            invariant
                0 <= j <= bullets@.len(),
                orig_a == *old(asteroid),
                orig_b == old(bullets)@,
                *asteroid == orig_a,
                bullets@ == orig_b,
                *score == *old(score),
                0 <= *score <= i64::MAX - 200,
                spawn_queue@ == old(spawn_queue)@,
                orig_a.wf_core(),
                orig_a.loc_within(0),
                orig_a.alive,
                orig_a.translation == translation,
                0 < translation.x <= 4_000_000,
                0 < translation.y <= 4_000_000,
                forall|k: int|
                    0 <= k < orig_b.len() ==> (#[trigger] orig_b[k]).location.bounded(10_000_000),
                forall|k: int|
                    0 <= k < orig_b.len() && (#[trigger] orig_b[k]).alive ==> 0 <= orig_b[
                        k
                    ].location.x < 2 * translation.x && 0 <= orig_b[k].location.y < 2
                        * translation.y,
                forall|k: int| 0 <= k < j ==> !bullet_hits(orig_a, #[trigger] orig_b[k], translation),
            decreases bullets@.len() - j,
        {
            if bullets[j].is_alive() {
                let bullet_pos = bullets[j].location.minus(translation);
                if asteroid.check_collision(bullet_pos, BULLET_RADIUS) {
                    proof {
                        lemma_first_hit_skip(orig_a, orig_b, translation, j as int);
                    }
                    let location = asteroid.location;
                    let size = asteroid.size;
                    asteroid.handle_collision(rng);
                    let b = &mut bullets[j];
                    b.handle_collision();
                    *score = *score + match size {
                        Sizes::Large => 50,
                        Sizes::Medium => 100,
                        Sizes::Small => 200,
                    };
                    if size != Sizes::Small {
                        spawn_queue.push((size, location));
                    }
                    return ;
                }
            }
            j = j + 1;
        }
        proof {
            lemma_first_hit_skip(orig_a, orig_b, translation, orig_b.len() as int);
        }
    }

    /// One tick of the whole simulation, in the load-bearing order:
    /// move the player; if the level was cleared, rebuild the pool and
    /// skip the collision pass for this tick; otherwise resolve
    /// collisions (ship against rocks, then bullets against rocks) and
    /// spawn the queued splits, newest first, into up to three
    /// recycled slots each; advance every asteroid; refresh the
    /// display.  Spawns from this tick never collide in this tick.
    ///
    /// The last clause of the contract ties the whole tick to the
    /// deterministic skeleton model (`pass_upto`, then `drain_splits`):
    /// everything except the freshly drawn silhouettes, drifts, spins
    /// and particles is pinned down exactly by the state going in.
    pub fn update<R: RandomSource>(&mut self, rng: &mut R)
        requires
            old(self).wf(),
            old(self).score <= i64::MAX - SCORE_TICK_CAP,
        ensures
            final(self).wf(),
            final(self).window_size == old(self).window_size,
            final(self).transition == old(self).transition,
            final(self).star_field == old(self).star_field,
            final(self).asteroids@.len() == NUM_ASTEROIDS,
            final(self).player.bullets@.len() == crate::player::NUM_BULLETS,
            speed_at_most(final(self).player.velocity, crate::player::SPEED_LIMIT as int),
            old(self).score <= final(self).score <= old(self).score + SCORE_TICK_CAP,
            final(self).player.lives <= old(self).player.lives,
            no_live_bullets(old(self).player.bullets@) ==> final(self).score == old(self).score,
            (no_live_bullets(old(self).player.bullets@) && !all_dead(old(self).asteroids@)) ==> (
            forall|i: int|
                0 <= i < final(self).asteroids@.len() ==> (((#[trigger] final(self).asteroids@[
                    i
                ]).alive <==> old(self).asteroids@[i].alive) && final(self).asteroids@[i].size
                    == old(self).asteroids@[i].size && final(self).asteroids@[i].hit_radius == old(self).asteroids@[i].hit_radius)),
            all_dead(old(self).asteroids@) ==> final(self).score == old(self).score,
            all_dead(old(self).asteroids@) ==> (forall|i: int|
                0 <= i < final(self).asteroids@.len() ==> (((#[trigger] final(self).asteroids@[
                    i
                ]).alive <==> i < 3) && (final(self).asteroids@[i].size is Large))),
            final(self).hud.player_lives == final(self).player.lives,
            final(self).hud.score == final(self).score,
            (all_dead(old(self).asteroids@) || player_clear(*old(self))) ==> (final(self).player.lives == old(self).player.lives && final(self).player.location.x
                == crate::player::moved_px(old(self).player) && final(self).player.location.y
                == crate::player::moved_py(old(self).player)),
            !all_dead(old(self).asteroids@) ==> ({
                let t = old(self).player.translation;
                let pool = old(self).asteroids@;
                let start = PassState {
                    ship: Vec2 {
                        x: moved_px(old(self).player) as i64,
                        y: moved_py(old(self).player) as i64,
                    },
                    ship_velocity: Vec2 {
                        x: limited_vx(old(self).player.velocity) as i64,
                        y: limited_vy(old(self).player.velocity) as i64,
                    },
                    lives: old(self).player.lives as int,
                    bullets: old(self).player.bullets@.map_values(|b: Bullet| flown_bullet(b, t)),
                    score: old(self).score as int,
                    queue: Seq::empty(),
                    kills: Seq::empty(),
                };
                let done = pass_upto(pool, pool.len() as int, start, PLAYER_HIT_RADIUS as int, t);
                let fate = drain_splits(
                    Seq::new(pool.len(), |i: int| pool[i].alive && !done.kills[i]),
                    Seq::new(pool.len(), |i: int| Option::<(Sizes, Vec2)>::None),
                    done.queue,
                );
                &&& final(self).player.location == done.ship
                &&& final(self).player.velocity == done.ship_velocity
                &&& final(self).player.lives == done.lives
                &&& final(self).score == done.score
                &&& forall|j: int|
                    0 <= j < final(self).player.bullets@.len() ==> (
                    #[trigger] final(self).player.bullets@[j]).alive == done.bullets[j].alive
                        && final(self).player.bullets@[j].location == done.bullets[j].location
                        && final(self).player.bullets@[j].velocity == done.bullets[j].velocity
                &&& forall|i: int|
                    0 <= i < final(self).asteroids@.len() ==> (#[trigger] final(self).asteroids@[
                        i
                    ]).alive == fate.0[i]
                &&& forall|i: int|
                    0 <= i < final(self).asteroids@.len() && fate.1[i] is None ==> (
                    #[trigger] final(self).asteroids@[i]).size == pool[i].size && final(self).asteroids@[i].hit_radius == pool[i].hit_radius && final(self).asteroids@[
                        i
                    ].velocity == pool[i].velocity && final(self).asteroids@[i].location.x
                        == crate::asteroids::wrap_coord(
                        pool[i].location.x + pool[i].velocity.x,
                        t.x as int,
                    ) && final(self).asteroids@[i].location.y == crate::asteroids::wrap_coord(
                        pool[i].location.y + pool[i].velocity.y,
                        t.y as int,
                    )
                &&& forall|i: int|
                    0 <= i < final(self).asteroids@.len() ==> ((#[trigger] fate.1[i]) matches Some(
                        sp,
                    ) ==> final(self).asteroids@[i].size == split_size(sp.0) && final(self).asteroids@[i].hit_radius == split_radius(sp.0) && -500 < final(self).asteroids@[i].velocity.x < 500 && -500 < final(self).asteroids@[
                        i
                    ].velocity.y < 500 && final(self).asteroids@[i].location.x
                        == crate::asteroids::wrap_coord(
                        sp.1.x + final(self).asteroids@[i].velocity.x,
                        t.x as int,
                    ) && final(self).asteroids@[i].location.y == crate::asteroids::wrap_coord(
                        sp.1.y + final(self).asteroids@[i].velocity.y,
                        t.y as int,
                    ))
            }),
    {
        let ghost w0 = self.window_size;
        let ghost tr0 = self.transition;
        let ghost sf0 = self.star_field;
        let ghost hud0 = self.hud;
        let ghost t = self.player.translation;
        let ghost s0 = self.score;
        let ghost nb = no_live_bullets(self.player.bullets@);
        let ghost ad = all_dead(self.asteroids@);
        let ghost npc = !ad && player_clear(*old(self));
        let ghost mut dq_alive: Seq<bool> = Seq::empty();
        let ghost mut dq_assign: Seq<Option<(Sizes, Vec2)>> = Seq::empty();

        // Move the player and wrap it; a live bullet that has left the
        // window goes back to sleep here.
        self.player.update();
        self.player.check_bounds();
        proof {
            assert(nb ==> no_live_bullets(self.player.bullets@));
            assert(self.player.location.x == crate::player::moved_px(old(self).player));
            assert(self.player.location.y == crate::player::moved_py(old(self).player));
        }
        let ghost player1 = self.player;
        let ghost init = PassState {
            ship: player1.location,
            ship_velocity: player1.velocity,
            lives: player1.lives as int,
            bullets: player1.bullets@,
            score: s0 as int,
            queue: Seq::empty(),
            kills: Seq::empty(),
        };
        proof {
            // The player phase computes exactly the model's starting
            // skeleton: the moved ship and the flown, culled bullets.
            assert(player1.location == (Vec2 {
                x: moved_px(old(self).player) as i64,
                y: moved_py(old(self).player) as i64,
            }));
            assert(player1.velocity == (Vec2 {
                x: limited_vx(old(self).player.velocity) as i64,
                y: limited_vy(old(self).player.velocity) as i64,
            }));
            assert forall|j: int| 0 <= j < player1.bullets@.len() implies #[trigger] player1.bullets@[j]
                == flown_bullet(old(self).player.bullets@[j], t) by {
                assert(old(self).player.bullets@[j].location.bounded(10_000_000));
                assert(old(self).player.bullets@[j].velocity.bounded(11_000));
            }
            assert(player1.bullets@ =~= old(self).player.bullets@.map_values(
                |b: Bullet| flown_bullet(b, t),
            ));
        }
        let ghost st_full = pass_upto(
            old(self).asteroids@,
            old(self).asteroids@.len() as int,
            init,
            PLAYER_HIT_RADIUS as int,
            t,
        );
        let ghost survivors0 = Seq::new(
            old(self).asteroids@.len(),
            |k: int| old(self).asteroids@[k].alive && !st_full.kills[k],
        );
        let ghost assign0 = Seq::new(
            old(self).asteroids@.len(),
            |k: int| Option::<(Sizes, Vec2)>::None,
        );
        let ghost fate0 = drain_splits(survivors0, assign0, st_full.queue);

        // A cleared level takes priority: rebuild the whole pool and
        // sit the collision pass out for this tick.
        let mut all_asteroids_dead: bool = true;
        let mut d: usize = 0;
        while d < self.asteroids.len()
            invariant
                0 <= d <= self.asteroids@.len(),
                all_asteroids_dead <==> (forall|k: int|
                    0 <= k < (d as int) ==> !(#[trigger] self.asteroids@[k]).alive),
            decreases self.asteroids@.len() - d,
        {
            if self.asteroids[d].is_alive() {
                all_asteroids_dead = false;
            }
            d = d + 1;
        }
        if all_asteroids_dead {
            self.asteroids = AsteroidsScene::initialize_asteroids(&self.window_size, rng);
        } else {
            let ghost pool1 = self.asteroids@;

            // Collisions: each live rock against the ship, then
            // against the bullet pool.
            let mut spawn_queue: Vec<(Sizes, Vec2)> = Vec::new();
            let trans = self.player.translation;
            let ghost lives1 = self.player.lives;
            let mut i: usize = 0;
            while i < NUM_ASTEROIDS
                invariant
                    0 <= i <= NUM_ASTEROIDS,
                    self.window_size == w0,
                    self.transition == tr0,
                    self.star_field == sf0,
                    self.hud == hud0,
                    2 <= w0.x <= 8_000_000,
                    2 <= w0.y <= 8_000_000,
                    self.player.wf_core(),
                    self.player.loc_within(0),
                    self.player.bullets_in_screen(),
                    self.player.translation == t,
                    trans == t,
                    t.x == w0.x / 2,
                    t.y == w0.y / 2,
                    speed_at_most(self.player.velocity, crate::player::SPEED_LIMIT as int),
                    self.player.lives <= lives1,
                    self.asteroids@.len() == NUM_ASTEROIDS,
                    forall|k: int|
                        0 <= k < self.asteroids@.len() ==> (#[trigger] self.asteroids@[k]).wf_core()
                            && self.asteroids@[k].loc_within(0) && self.asteroids@[k].translation
                            == t,
                    s0 <= self.score <= s0 + 200 * (i as int),
                    s0 + SCORE_TICK_CAP <= i64::MAX,
                    0 <= s0,
                    nb ==> no_live_bullets(self.player.bullets@),
                    nb ==> self.score == s0,
                    nb ==> spawn_queue@.len() == 0,
                    nb ==> (forall|k: int|
                        0 <= k < self.asteroids@.len() ==> ((#[trigger] self.asteroids@[k]).alive
                            <==> pool1[k].alive) && self.asteroids@[k].size == pool1[k].size),
                    forall|q: int|
                        0 <= q < spawn_queue@.len() ==> -t.x <= (#[trigger] spawn_queue@[q]).1.x
                            <= t.x && -t.y <= spawn_queue@[q].1.y <= t.y,
                    pool1.len() == NUM_ASTEROIDS,
                    forall|k: int|
                        0 <= k < self.asteroids@.len() ==> (#[trigger] self.asteroids@[k]).location
                            == pool1[k].location && self.asteroids@[k].hit_radius == pool1[
                            k
                        ].hit_radius && self.asteroids@[k].size == pool1[k].size
                            && self.asteroids@[k].velocity == pool1[k].velocity && (
                        self.asteroids@[k].alive ==> pool1[k].alive),
                    npc == (!ad && player_clear(*old(self))),
                    old(self).wf(),
                    pool1 == old(self).asteroids@,
                    npc ==> self.player.location == player1.location && self.player.lives
                        == player1.lives,
                    npc ==> player1.location.x == crate::player::moved_px(old(self).player)
                        && player1.location.y == crate::player::moved_py(old(self).player)
                        && player1.lives == old(self).player.lives,
                    ({
                        let st = pass_upto(pool1, i as int, init, PLAYER_HIT_RADIUS as int, t);
                        &&& st.ship == self.player.location
                        &&& st.ship_velocity == self.player.velocity
                        &&& st.lives == self.player.lives as int
                        &&& st.bullets == self.player.bullets@
                        &&& st.score == self.score as int
                        &&& st.queue == spawn_queue@
                        &&& st.kills.len() == i as int
                        &&& forall|k: int|
                            0 <= k < i as int ==> (#[trigger] self.asteroids@[k]).alive == (pool1[
                                k
                            ].alive && !st.kills[k])
                    }),
                    forall|k: int|
                        (i as int) <= k < self.asteroids@.len() ==> #[trigger] self.asteroids@[k]
                            == pool1[k],
                decreases NUM_ASTEROIDS - i,
            {
                let ghost st = pass_upto(pool1, i as int, init, PLAYER_HIT_RADIUS as int, t);
                proof {
                    assert(pass_upto(pool1, i as int + 1, init, PLAYER_HIT_RADIUS as int, t)
                        == pass_step(st, pool1[i as int], PLAYER_HIT_RADIUS as int, t));
                }
                if !self.asteroids[i].is_dead() {
                    let hit_player = self.asteroids[i].check_collision(
                        self.player.location,
                        self.player.hit_radius,
                    );
                    if hit_player {
                        proof {
                            if npc {
                                assert(self.asteroids@[i as int].alive);
                                assert(old(self).asteroids@[i as int] == pool1[i as int]);
                                assert(old(self).asteroids@[i as int].alive);
                                assert(player1.location == (Vec2 {
                                    x: crate::player::moved_px(old(self).player) as i64,
                                    y: crate::player::moved_py(old(self).player) as i64,
                                }));
                                assert(self.asteroids@[i as int].location == old(self).asteroids@[
                                    i as int
                                ].location && self.asteroids@[i as int].hit_radius == old(self).asteroids@[i as int].hit_radius);
                                assert(false);
                            }
                        }
                        self.player.handle_collsion(rng);
                        proof {
                            let v = self.player.velocity;
                            assert(v.x * v.x + v.y * v.y <= 4_000 * 4_000 + 2 * 4_000)
                                by (nonlinear_arith)
                                requires
                                    v.x == 0,
                                    v.y == 0,
                            ;
                        }
                    }
                    let ghost a_before = self.asteroids@[i as int];
                    let ghost b_before = self.player.bullets@;
                    AsteroidsScene::resolve_bullets(
                        &mut self.asteroids[i],
                        &mut self.player.bullets,
                        trans,
                        &mut self.score,
                        &mut spawn_queue,
                        rng,
                    );
                    proof {
                        if nb {
                            assert(forall|k: int|
                                0 <= k < b_before.len() ==> !bullet_hits(
                                    a_before,
                                    #[trigger] b_before[k],
                                    t,
                                ));
                            lemma_first_hit_skip(a_before, b_before, t, b_before.len() as int);
                        }
                        // What this slot just did is exactly one model
                        // step: the ship sub-step, then the bullet
                        // sub-step on the first striking bullet.
                        lemma_first_hit_range(pool1[i as int], b_before, t, 0);
                        let s1 = ship_hit_state(st, pool1[i as int], PLAYER_HIT_RADIUS as int);
                        assert(s1.bullets == b_before && a_before == pool1[i as int]);
                        assert(s1.ship == self.player.location);
                        assert(s1.ship_velocity == self.player.velocity);
                        assert(s1.lives == self.player.lives as int);
                        let st1 = bullet_hit_state(s1, pool1[i as int], t);
                        let h = first_hit_from(pool1[i as int], b_before, t, 0);
                        if h < b_before.len() {
                            assert(self.player.bullets@[h] == (Bullet {
                                alive: false,
                                ..b_before[h]
                            }));
                            assert(self.player.bullets@ == st1.bullets);
                            assert(!self.asteroids@[i as int].alive);
                        } else {
                            assert(self.player.bullets@ == st1.bullets);
                            assert(self.asteroids@[i as int].alive == pool1[i as int].alive);
                        }
                        assert(st1 == pass_upto(
                            pool1,
                            i as int + 1,
                            init,
                            PLAYER_HIT_RADIUS as int,
                            t,
                        ));
                        assert(st1.kills.len() == i as int + 1);
                        assert(st1.kills[i as int] == (h < b_before.len()));
                        assert(forall|k: int| 0 <= k < i as int ==> st1.kills[k] == st.kills[k]);
                        assert(st1.score == self.score as int);
                        assert(st1.queue == spawn_queue@);
                        assert(st1.ship == self.player.location);
                        assert(st1.lives == self.player.lives as int);
                    }
                } else {
                    proof {
                        assert(pass_step(st, pool1[i as int], PLAYER_HIT_RADIUS as int, t)
                            == (PassState { kills: st.kills.push(false), ..st }));
                    }
                }
                i = i + 1;
            }

            // Spawn the queued splits, most recent first, into up to
            // three inactive slots each; with fewer free slots the
            // spawn is silently partial.
            let ghost player_mid = self.player;
            let ghost score_mid = self.score;
            proof {
                dq_alive = Seq::new(self.asteroids@.len(), |k: int| self.asteroids@[k].alive);
                dq_assign = Seq::new(
                    self.asteroids@.len(),
                    |k: int| Option::<(Sizes, Vec2)>::None,
                );
                assert(dq_alive =~= survivors0);
                assert(dq_assign =~= assign0);
                assert(st_full.queue == spawn_queue@);
                assert(drain_splits(dq_alive, dq_assign, spawn_queue@) == fate0);
            }
            while spawn_queue.len() > 0
                invariant
                    self.window_size == w0,
                    self.transition == tr0,
                    self.star_field == sf0,
                    self.hud == hud0,
                    self.player == player_mid,
                    self.score == score_mid,
                    self.asteroids@.len() == NUM_ASTEROIDS,
                    forall|k: int|
                        0 <= k < self.asteroids@.len() ==> (#[trigger] self.asteroids@[k]).wf_core()
                            && self.asteroids@[k].loc_within(0) && self.asteroids@[k].translation
                            == t,
                    forall|q: int|
                        0 <= q < spawn_queue@.len() ==> -t.x <= (#[trigger] spawn_queue@[q]).1.x
                            <= t.x && -t.y <= spawn_queue@[q].1.y <= t.y,
                    nb ==> spawn_queue@.len() == 0,
                    nb ==> (forall|k: int|
                        0 <= k < self.asteroids@.len() ==> ((#[trigger] self.asteroids@[k]).alive
                            <==> pool1[k].alive) && self.asteroids@[k].size == pool1[k].size
                            && self.asteroids@[k].hit_radius == pool1[k].hit_radius),
                    dq_alive.len() == NUM_ASTEROIDS,
                    dq_assign.len() == NUM_ASTEROIDS,
                    forall|k: int|
                        0 <= k < self.asteroids@.len() ==> (#[trigger] self.asteroids@[k]).alive
                            == dq_alive[k],
                    drain_splits(dq_alive, dq_assign, spawn_queue@) == fate0,
                    forall|k: int|
                        0 <= k < self.asteroids@.len() && (#[trigger] dq_assign[k]) is None ==> (
                        self.asteroids@[k].size == pool1[k].size && self.asteroids@[k].hit_radius
                            == pool1[k].hit_radius && self.asteroids@[k].location == pool1[
                            k
                        ].location && self.asteroids@[k].velocity == pool1[k].velocity),
                    forall|k: int|
                        0 <= k < self.asteroids@.len() ==> ((#[trigger] dq_assign[k]) matches Some(
                            sp,
                        ) ==> (self.asteroids@[k].size == split_size(sp.0) && self.asteroids@[
                            k
                        ].hit_radius == split_radius(sp.0) && self.asteroids@[k].location == sp.1
                            && -500 < self.asteroids@[k].velocity.x < 500 && -500
                            < self.asteroids@[k].velocity.y < 500)),
                decreases spawn_queue@.len(),
            {
                let ghost queue_entry = spawn_queue@;
                let (size, location) = spawn_queue.pop().unwrap();
                let ghost scan_alive0 = dq_alive;
                let ghost scan_assign0 = dq_assign;
                proof {
                    assert(spawn_queue@ =~= queue_entry.drop_last());
                    assert(queue_entry.last() == (size, location));
                }
                let mut spawn_count: i64 = 0;
                let mut k: usize = 0;
                while k < NUM_ASTEROIDS
                    invariant
                        0 <= k <= NUM_ASTEROIDS,
                        0 <= spawn_count <= NUM_SPAWN_ASTEROIDS,
                        dq_alive.len() == NUM_ASTEROIDS,
                        dq_assign.len() == NUM_ASTEROIDS,
                        forall|m: int|
                            0 <= m < self.asteroids@.len() ==> (#[trigger] self.asteroids@[
                                m
                            ]).alive == dq_alive[m],
                        spawn_scan(
                            dq_alive,
                            dq_assign,
                            (size, location),
                            k as int,
                            3 - spawn_count as int,
                        ) == spawn_scan(scan_alive0, scan_assign0, (size, location), 0, 3),
                        forall|m: int|
                            0 <= m < self.asteroids@.len() && (#[trigger] dq_assign[m]) is None
                                ==> (self.asteroids@[m].size == pool1[m].size && self.asteroids@[
                                m
                            ].hit_radius == pool1[m].hit_radius && self.asteroids@[m].location
                                == pool1[m].location && self.asteroids@[m].velocity == pool1[
                                m
                            ].velocity),
                        forall|m: int|
                            0 <= m < self.asteroids@.len() ==> ((#[trigger] dq_assign[
                                m
                            ]) matches Some(sp) ==> (self.asteroids@[m].size == split_size(sp.0)
                                && self.asteroids@[m].hit_radius == split_radius(sp.0)
                                && self.asteroids@[m].location == sp.1 && -500 < self.asteroids@[
                                m
                            ].velocity.x < 500 && -500 < self.asteroids@[m].velocity.y < 500)),
                        self.window_size == w0,
                        self.transition == tr0,
                        self.star_field == sf0,
                        self.hud == hud0,
                        self.player == player_mid,
                        self.score == score_mid,
                        self.asteroids@.len() == NUM_ASTEROIDS,
                        -t.x <= location.x <= t.x,
                        -t.y <= location.y <= t.y,
                        forall|q: int|
                            0 <= q < spawn_queue@.len() ==> -t.x <= (#[trigger] spawn_queue@[
                                q
                            ]).1.x <= t.x && -t.y <= spawn_queue@[q].1.y <= t.y,
                        forall|m: int|
                            0 <= m < self.asteroids@.len() ==> (
                            #[trigger] self.asteroids@[m]).wf_core() && self.asteroids@[
                                m
                            ].loc_within(0) && self.asteroids@[m].translation == t,
                    decreases NUM_ASTEROIDS - k,
                {
                    if !self.asteroids[k].is_alive() && spawn_count < NUM_SPAWN_ASTEROIDS {
                        let a = &mut self.asteroids[k];
                        a.spawn_asteroid(&location, &size, rng);
                        spawn_count = spawn_count + 1;
                        proof {
                            dq_alive = dq_alive.update(k as int, true);
                            dq_assign = dq_assign.update(k as int, Some((size, location)));
                        }
                    }
                    k = k + 1;
                }
                proof {
                    assert(spawn_scan(dq_alive, dq_assign, (size, location), k as int, 3
                        - spawn_count as int) == (dq_alive, dq_assign));
                    assert(drain_splits(dq_alive, dq_assign, spawn_queue@) == fate0);
                }
            }
            proof {
                assert(fate0.0 == dq_alive && fate0.1 == dq_assign);
            }
        }

        // Advance every asteroid and wrap it.
        let ghost player2 = self.player;
        let ghost score2 = self.score;
        let ghost pool2 = self.asteroids@;
        let mut u: usize = 0;
        while u < NUM_ASTEROIDS
            invariant
                0 <= u <= NUM_ASTEROIDS,
                self.window_size == w0,
                self.transition == tr0,
                self.star_field == sf0,
                self.hud == hud0,
                self.player == player2,
                self.score == score2,
                self.asteroids@.len() == NUM_ASTEROIDS,
                pool2.len() == NUM_ASTEROIDS,
                forall|k: int|
                    (u as int) <= k < self.asteroids@.len() ==> (#[trigger] self.asteroids@[k])
                        == pool2[k],
                forall|k: int|
                    0 <= k < self.asteroids@.len() ==> (#[trigger] self.asteroids@[k]).wf_core()
                        && self.asteroids@[k].translation == t,
                forall|k: int|
                    0 <= k < (u as int) ==> (#[trigger] self.asteroids@[k]).loc_within(0),
                forall|k: int|
                    (u as int) <= k < self.asteroids@.len() ==> (#[trigger] self.asteroids@[
                        k
                    ]).loc_within(0),
                forall|k: int|
                    0 <= k < (u as int) ==> (#[trigger] self.asteroids@[k]).alive == pool2[k].alive
                        && self.asteroids@[k].size == pool2[k].size && self.asteroids@[
                        k
                    ].hit_radius == pool2[k].hit_radius,
                forall|k: int|
                    0 <= k < (u as int) ==> (#[trigger] self.asteroids@[k]).velocity == pool2[
                        k
                    ].velocity && self.asteroids@[k].location.x == crate::asteroids::wrap_coord(
                        pool2[k].location.x + pool2[k].velocity.x,
                        t.x as int,
                    ) && self.asteroids@[k].location.y == crate::asteroids::wrap_coord(
                        pool2[k].location.y + pool2[k].velocity.y,
                        t.y as int,
                    ),
            decreases NUM_ASTEROIDS - u,
        {
            let a = &mut self.asteroids[u];
            a.update();
            a.check_bounds();
            u = u + 1;
        }

        proof {
            if npc || ad {
                assert(self.player.location == player1.location && self.player.lives
                    == player1.lives);
            }
            if !ad {
                // Tie the tick's outcome to the skeleton model, piece
                // by piece: the start state, the pass, the drain, and
                // the per-slot motion.
                let tt = old(self).player.translation;
                let pool = old(self).asteroids@;
                let start = PassState {
                    ship: Vec2 {
                        x: moved_px(old(self).player) as i64,
                        y: moved_py(old(self).player) as i64,
                    },
                    ship_velocity: Vec2 {
                        x: limited_vx(old(self).player.velocity) as i64,
                        y: limited_vy(old(self).player.velocity) as i64,
                    },
                    lives: old(self).player.lives as int,
                    bullets: old(self).player.bullets@.map_values(|b: Bullet| flown_bullet(b, tt)),
                    score: old(self).score as int,
                    queue: Seq::empty(),
                    kills: Seq::empty(),
                };
                assert(init == start);
                let done = pass_upto(pool, pool.len() as int, start, PLAYER_HIT_RADIUS as int, tt);
                assert(done == st_full);
                assert(Seq::new(pool.len(), |i: int| pool[i].alive && !done.kills[i])
                    =~= survivors0);
                assert(Seq::new(pool.len(), |i: int| Option::<(Sizes, Vec2)>::None) =~= assign0);
                let fate = drain_splits(
                    Seq::new(pool.len(), |i: int| pool[i].alive && !done.kills[i]),
                    Seq::new(pool.len(), |i: int| Option::<(Sizes, Vec2)>::None),
                    done.queue,
                );
                assert(fate == fate0);
                assert(self.player.location == done.ship);
                assert(self.player.velocity == done.ship_velocity);
                assert(self.player.lives == done.lives);
                assert(self.score == done.score);
                assert(self.player.bullets@ == done.bullets);
                assert(forall|i: int|
                    0 <= i < self.asteroids@.len() ==> (#[trigger] self.asteroids@[i]).alive
                        == fate.0[i]);
            }
        }
        // Refresh the display state.
        self.hud.set_lives(self.player.lives);
        self.hud.set_score(self.score);
        self.hud.update();
    }

    /// A key pressed: the arrows steer the ship (four degrees per
    /// press, thrust along the nose), and Return — once the last life
    /// is gone — arms the one-shot restart signal.
    pub fn key_down(&mut self, key: Key)
        requires
            old(self).wf(),
            key is Up ==> old(self).player.velocity.bounded(1_999_999_000),
        ensures
            final(self).wf(),
            final(self).window_size == old(self).window_size,
            final(self).score == old(self).score,
            final(self).asteroids == old(self).asteroids,
            final(self).hud == old(self).hud,
            final(self).star_field == old(self).star_field,
            key is Left || key is Right || key is Up ==> final(self).transition == old(self).transition,
            key is Left || key is Right ==> final(self).player == (Player {
                object_vertices: final(self).player.object_vertices,
                ..old(self).player
            }),
            key is Left ==> forall|k: int|
                0 <= k < final(self).player.object_vertices@.len() ==> (
                #[trigger] final(self).player.object_vertices@[k]).x == crate::math::rot_x(
                    old(self).player.object_vertices@[k],
                    -4_000,
                ) && final(self).player.object_vertices@[k].y == crate::math::rot_y(
                    old(self).player.object_vertices@[k],
                    -4_000,
                ),
            key is Right ==> forall|k: int|
                0 <= k < final(self).player.object_vertices@.len() ==> (
                #[trigger] final(self).player.object_vertices@[k]).x == crate::math::rot_x(
                    old(self).player.object_vertices@[k],
                    4_000,
                ) && final(self).player.object_vertices@[k].y == crate::math::rot_y(
                    old(self).player.object_vertices@[k],
                    4_000,
                ),
            key is Up ==> final(self).player.velocity.x == old(self).player.velocity.x
                + crate::player::scaled_dir_x(
                old(self).player.object_vertices@[0],
                crate::player::THRUST as int,
            ) && final(self).player.velocity.y == old(self).player.velocity.y
                + crate::player::scaled_dir_y(
                old(self).player.object_vertices@[0],
                crate::player::THRUST as int,
            ),
            key is Up ==> final(self).player == (Player {
                velocity: final(self).player.velocity,
                exhaust: final(self).player.exhaust,
                ..old(self).player
            }),
            key is Up ==> final(self).player.exhaust@.len() == vstd::math::min(
                old(self).player.exhaust@.len() as int + 1,
                crate::player::EXHAUST_CAP as int,
            ) && final(self).player.exhaust@[0].intensity == crate::player::EXHAUST_INTENSITY
                && final(self).player.exhaust@[0].position.x == old(self).player.object_vertices@[0].x + old(self).player.location.x
                - crate::player::scaled_dir_x(
                old(self).player.object_vertices@[0],
                crate::player::EXHAUST_OFFSET as int,
            ) && final(self).player.exhaust@[0].position.y == old(self).player.object_vertices@[0].y + old(self).player.location.y
                - crate::player::scaled_dir_y(
                old(self).player.object_vertices@[0],
                crate::player::EXHAUST_OFFSET as int,
            ),
            key is Up ==> forall|k: int|
                1 <= k < final(self).player.exhaust@.len() ==> final(self).player.exhaust@[k]
                    == old(self).player.exhaust@[k - 1],
            key is Return ==> (if old(self).player.lives == 0 {
                final(self).transition == Some(Transition::Reset)
            } else {
                final(self).transition == old(self).transition
            }) && final(self).player == old(self).player,
            key is Space ==> *final(self) == *old(self),
    {
        match key {
            Key::Left => self.player.rotate(-4_000),
            Key::Right => self.player.rotate(4_000),
            Key::Up => self.player.apply_thrust(),
            Key::Return => {
                if !self.player.is_alive() {
                    self.transition = Some(Transition::Reset);
                }
            },
            Key::Space => {},
        }
    }

    /// A key released: releasing Space fires one bullet, waking the
    /// first slot of the pool that is free; with the whole pool in
    /// flight the shot is silently dropped.
    pub fn key_up(&mut self, key: Key)
        requires
            old(self).wf(),
        ensures
            final(self).wf(),
            !(key is Space) ==> *final(self) == *old(self),
            key is Space ==> final(self).player.bullets@.len() == old(self).player.bullets@.len() && (*final(self) == (AsteroidsScene {
                player: final(self).player,
                ..*old(self)
            })) && (final(self).player == (Player {
                bullets: final(self).player.bullets,
                ..old(self).player
            })),
            key is Space ==> ({
                let j = crate::player::first_dead_from(old(self).player.bullets@, 0);
                &&& j == old(self).player.bullets@.len() ==> final(self).player.bullets@ == old(self).player.bullets@
                &&& j < old(self).player.bullets@.len() ==> (final(self).player.bullets@ == old(self).player.bullets@.update(j, final(self).player.bullets@[j]) && final(self).player.bullets@[j].alive && final(self).player.bullets@[j].location == old(self).player.world_vertices@[0] && final(self).player.bullets@[j].velocity.x
                    == crate::player::scaled_dir_x(
                    old(self).player.object_vertices@[0],
                    crate::player::BULLET_SPEED as int,
                ) && final(self).player.bullets@[j].velocity.y == crate::player::scaled_dir_y(
                    old(self).player.object_vertices@[0],
                    crate::player::BULLET_SPEED as int,
                ))
            }),
    {
        if key == Key::Space {
            self.player.shoot_bullet();
            proof {
                let h = crate::player::first_dead_from(old(self).player.bullets@, 0);
                assert forall|j: int|
                    0 <= j < self.player.bullets@.len() && (
                    #[trigger] self.player.bullets@[j]).alive implies self.player.bullets@[
                    j
                ].location.bounded(8_200_000) by {
                    if h < old(self).player.bullets@.len() && j == h {
                        assert(old(self).player.world_vertices@[0].bounded(8_100_000));
                    } else {
                        assert(old(self).player.bullets@[j].location.bounded(8_200_000));
                    }
                }
            }
        }
    }

    pub fn should_transition(&self) -> (r: bool)
        ensures
            r == (self.transition is Some),
    {
        if let Some(_) = &self.transition {
            true
        } else {
            false
        }
    }

    pub fn get_transition(&self) -> (r: Option<Transition>)
        ensures
            r == self.transition,
    {
        self.transition
    }
}

} // verus!
