//! A pooled bullet.
//!
//! Bullets live in a fixed pool owned by the player: created inert,
//! woken on fire, put back to sleep when they leave the screen or hit
//! an asteroid.  A slot is never added or removed.

use crate::math::Vec2;
use vstd::prelude::*;

verus! {

#[derive(Clone, Copy, Debug, PartialEq, Eq, Structural)]
pub struct Bullet {
    pub location: Vec2,
    pub velocity: Vec2,
    pub alive: bool,
}

impl Bullet {
    /// A fresh slot: inert, at the origin.
    pub fn new() -> (b: Bullet)
        ensures
            b.location.x == 0,
            b.location.y == 0,
            b.velocity.x == 0,
            b.velocity.y == 0,
            !b.alive,
    {
        Bullet { location: Vec2 { x: 0, y: 0 }, velocity: Vec2 { x: 0, y: 0 }, alive: false }
    }

    /// A hit puts the slot back to sleep; position and velocity stay
    /// for the pool to overwrite on reuse.
    pub fn handle_collision(&mut self)
        ensures
            !final(self).alive,
            final(self).location == old(self).location,
            final(self).velocity == old(self).velocity,
    {
        self.alive = false;
    }

    pub fn is_alive(&self) -> (r: bool)
        ensures
            r == self.alive,
    {
        self.alive
    }
}

} // verus!
