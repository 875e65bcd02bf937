//! Explosion particles.
//!
//! A destroyed ship or asteroid scatters a ring of glowing circles.
//! Each particle drifts along a fixed velocity while its radius decays
//! by the factor 5/7 every tick; once it falls below the visible
//! threshold it is dropped, so a burst always dies out after a bounded
//! number of ticks and the buffer never grows.

use crate::math::{lemma_abs_le_of_sq, rot_x, rot_y, Vec2, DEG_FULL, SCALE};
use crate::rng::RandomSource;
use vstd::prelude::*;

verus! {

/// Radius, in milli-units, below which a particle can no longer be
/// seen and is dropped.
pub const FADE_MIN: i64 = 50;

/// Largest radius a burst ever starts from.
pub const RADIUS_MAX: i64 = 24_000;

/// Speed, in milli-units per tick, at which particles radiate.
pub const PARTICLE_SPEED: i64 = 2_000;

/// A cap on how far a particle can ever stand from the origin.
pub const PARTICLE_POS_CAP: i64 = 4_300_000;

/// Where a particle may be born: within any entity's reach of the
/// play field.
pub const BURST_POS_CAP: i64 = 4_200_000;

/// Particle `k` of a burst of `n`: the particle speed laid flat,
/// rotated onto its equal-spacing slice of the full turn, nudged by a
/// whole-degree jitter `j`.
pub open spec fn burst_velocity(v: Vec2, k: int, n: int, j: int) -> bool {
    &&& v.x == rot_x(Vec2 { x: PARTICLE_SPEED, y: 0 }, k * (360_000int / n) + j * 1000)
    &&& v.y == rot_y(Vec2 { x: PARTICLE_SPEED, y: 0 }, k * (360_000int / n) + j * 1000)
}

/// The velocity radiates at the particle speed on a jittered
/// equal-spacing angle, for some jitter of up to a few degrees.
pub open spec fn jittered_velocity(v: Vec2, k: int, n: int) -> bool {
    exists|j: int| -10 <= j < 14 && #[trigger] burst_velocity(v, k, n, j)
}

/// One glowing circle of an explosion.
#[derive(Clone, Copy, Debug, PartialEq, Eq, Structural)]
pub struct Particle {
    pub position: Vec2,
    pub velocity: Vec2,
    pub radius: i64,
}

/// How many ticks until a radius has decayed below the visible
/// threshold.
pub open spec fn ticks_left(r: int) -> int
    decreases r,
{
    if r <= FADE_MIN {
        0
    } else {
        1 + ticks_left(r * 5 / 7)
    }
}

pub proof fn lemma_ticks_left_nonneg(r: int)
    ensures
        ticks_left(r) >= 0,
    decreases r,
{
    if r > FADE_MIN {
        lemma_ticks_left_nonneg(r * 5 / 7);
    }
}

pub proof fn lemma_ticks_left_mono(r1: int, r2: int)
    requires
        r1 <= r2,
    ensures
        ticks_left(r1) <= ticks_left(r2),
    decreases r2,
{
    if r2 <= FADE_MIN {
    } else if r1 <= FADE_MIN {
        lemma_ticks_left_nonneg(r2);
    } else {
        lemma_ticks_left_mono(r1 * 5 / 7, r2 * 5 / 7);
    }
}

/// From the largest starting radius, a particle is gone within 19
/// ticks.
pub proof fn lemma_ticks_left_cap(r: int)
    requires
        r <= RADIUS_MAX,
    ensures
        ticks_left(r) <= 19,
{
    lemma_ticks_left_mono(r, RADIUS_MAX as int);
    reveal_with_fuel(ticks_left, 21);
    assert(ticks_left(RADIUS_MAX as int) == 19);
}

/// A particle the simulation can hold: bounded speed, a radius no
/// larger than a fresh burst's, and a position that cannot leave
/// `PARTICLE_POS_CAP` before the particle fades.
pub open spec fn particle_wf(p: Particle) -> bool {
    &&& p.velocity.bounded(PARTICLE_SPEED as int)
    &&& 0 <= p.radius <= RADIUS_MAX
    &&& p.position.bounded(PARTICLE_POS_CAP - PARTICLE_SPEED * ticks_left(p.radius as int))
}

/// One tick of a particle: drift by its velocity, decay the radius by
/// 5/7 (the fixed-point form of dividing by 1.4).
pub open spec fn particle_step(p: Particle) -> Particle {
    Particle {
        position: Vec2 {
            x: (p.position.x + p.velocity.x) as i64,
            y: (p.position.y + p.velocity.y) as i64,
        },
        velocity: p.velocity,
        radius: (p.radius * 5 / 7) as i64,
    }
}

pub open spec fn particle_keep(p: Particle) -> bool {
    p.radius > FADE_MIN
}

/// One tick of a whole burst: every particle steps, and those that
/// have faded are dropped.
pub open spec fn advanced_particles(s: Seq<Particle>) -> Seq<Particle>
    decreases s.len(),
{
    if s.len() == 0 {
        Seq::empty()
    } else {
        let rest = advanced_particles(s.drop_last());
        let q = particle_step(s.last());
        if particle_keep(q) {
            rest.push(q)
        } else {
            rest
        }
    }
}

/// Stepping a well-formed particle keeps it well formed, as long as
/// it has not faded (a faded one is dropped, not kept).
pub proof fn lemma_particle_step_wf(p: Particle)
    requires
        particle_wf(p),
        particle_keep(particle_step(p)),
    ensures
        particle_wf(particle_step(p)),
{
    lemma_ticks_left_nonneg(p.radius as int);
    let r = p.radius as int;
    assert(r > FADE_MIN);
    assert(ticks_left(r) == 1 + ticks_left(r * 5 / 7));
    lemma_ticks_left_nonneg(r * 5 / 7);
}

/// Advance a burst by one tick: each particle drifts and decays, and
/// the faded ones are dropped.
pub fn advance_particles(ps: &mut Vec<Particle>)
    requires
        forall|k: int| 0 <= k < old(ps)@.len() ==> particle_wf(#[trigger] old(ps)@[k]),
    ensures
        final(ps)@ == advanced_particles(old(ps)@),
        forall|k: int| 0 <= k < final(ps)@.len() ==> particle_wf(#[trigger] final(ps)@[k]),
        final(ps)@.len() <= old(ps)@.len(),
{
    let ghost orig = ps@;
    let mut out: Vec<Particle> = Vec::new();
    let mut i: usize = 0;
    while i < ps.len()
        invariant
            ps@ == orig,
            0 <= i <= orig.len(),
            forall|k: int| 0 <= k < orig.len() ==> particle_wf(#[trigger] orig[k]),
            out@ == advanced_particles(orig.subrange(0, i as int)),
            forall|k: int| 0 <= k < out@.len() ==> particle_wf(#[trigger] out@[k]),
            out@.len() <= i,
        decreases orig.len() - i,
    {
        let p = ps[i];
        proof {
            lemma_ticks_left_nonneg(p.radius as int);
        }
        let stepped = Particle {
            position: Vec2 { x: p.position.x + p.velocity.x, y: p.position.y + p.velocity.y },
            velocity: p.velocity,
            radius: p.radius * 5 / 7,
        };
        proof {
            assert(stepped == particle_step(p));
        }
        if stepped.radius > FADE_MIN {
            proof {
                lemma_particle_step_wf(p);
            }
            out.push(stepped);
        }
        proof {
            let pre = orig.subrange(0, i as int);
            let pre1 = orig.subrange(0, i + 1);
            assert(pre1.drop_last() =~= pre);
            assert(pre1.last() == orig[i as int]);
            assert(out@ == advanced_particles(pre1));
        }
        i = i + 1;
    }
    proof {
        assert(orig.subrange(0, orig.len() as int) =~= orig);
    }
    *ps = out;
}

/// Scatter `count` particles of the given radius from `location`:
/// one per equal slice of the full turn, each nudged by a random
/// jitter of up to a few degrees either way, radiating at the fixed
/// particle speed.
pub fn spawn_burst<R: RandomSource>(
    rng: &mut R,
    location: Vec2,
    count: i64,
    radius: i64,
) -> (burst: Vec<Particle>)
    requires
        1 <= count <= 32,
        0 < radius <= RADIUS_MAX,
        location.bounded(BURST_POS_CAP as int),
    ensures
        burst@.len() == count,
        forall|k: int| 0 <= k < burst@.len() ==> particle_wf(#[trigger] burst@[k]),
        forall|k: int|
            0 <= k < burst@.len() ==> (#[trigger] burst@[k]).position == location && burst@[
                k
            ].radius == radius,
        forall|k: int|
            0 <= k < burst@.len() ==> jittered_velocity(
                (#[trigger] burst@[k]).velocity,
                k,
                count as int,
            ),
{
    let mut burst: Vec<Particle> = Vec::new();
    proof {
        vstd::arithmetic::div_mod::lemma_div_pos_is_pos(DEG_FULL as int, count as int);
        vstd::arithmetic::div_mod::lemma_div_nonincreasing(DEG_FULL as int, count as int);
    }
    let interval = DEG_FULL / count;
    let mut i: i64 = 0;
    while i < count
        invariant
            0 <= i <= count <= 32,
            0 < radius <= RADIUS_MAX,
            location.bounded(BURST_POS_CAP as int),
            0 <= interval <= DEG_FULL,
            interval == 360_000int / (count as int),
            burst@.len() == i,
            forall|k: int| 0 <= k < burst@.len() ==> particle_wf(#[trigger] burst@[k]),
            forall|k: int|
                0 <= k < burst@.len() ==> (#[trigger] burst@[k]).position == location && burst@[
                    k
                ].radius == radius,
            forall|k: int|
                0 <= k < burst@.len() ==> jittered_velocity(
                    (#[trigger] burst@[k]).velocity,
                    k,
                    count as int,
                ),
        decreases count - i,
    {
        let jitter = rng.next_in_range(-10, 14);
        proof {
            assert(0 <= i * interval <= 32 * 360_000) by (nonlinear_arith)
                requires
                    0 <= i <= 32,
                    0 <= interval <= 360_000,
            ;
        }
        let angle = i * interval + jitter * SCALE;
        let velocity = Vec2 { x: PARTICLE_SPEED, y: 0 }.rotate(angle);
        proof {
            crate::math::lemma_norm_sq_nonneg(velocity);
            lemma_abs_le_of_sq(velocity.x as int, PARTICLE_SPEED as int);
            lemma_abs_le_of_sq(velocity.y as int, PARTICLE_SPEED as int);
            lemma_ticks_left_cap(radius as int);
            lemma_ticks_left_nonneg(radius as int);
        }
        let p = Particle { position: location, velocity, radius };
        proof {
            assert(burst_velocity(velocity, i as int, count as int, jitter as int));
            assert(jittered_velocity(velocity, i as int, count as int));
        }
        burst.push(p);
        i = i + 1;
    }
    burst
}

} // verus!
