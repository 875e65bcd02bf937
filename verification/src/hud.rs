//! The heads-up display state: the life counter, the score, the
//! little ship icon drawn once per remaining life, and the fade-in
//! level of the game-over banner.  Drawing itself is the render
//! collaborator's business; this type only keeps the numbers exact.

use crate::math::{tdiv, Vec2};
use vstd::prelude::*;

verus! {

/// The icon's silhouette is the unit arrow scaled by six units.
pub const ICON_SCALE: i64 = 6_000;

/// The banner's fade level is full at one (in milli-units).
pub const ALPHA_FULL: i64 = 1_000;

/// How much the banner fades in per tick (0.025).
pub const ALPHA_STEP: i64 = 25;

pub struct Hud {
    pub player_lives: i32,
    pub score: i64,
    pub object_vertices: Vec<Vec2>,
    pub alpha: i64,
}

impl Hud {
    /// Four bounded icon vertices, and a fade level that never runs
    /// far past full.
    pub open spec fn wf(self) -> bool {
        &&& self.object_vertices@.len() == 4
        &&& forall|k: int|
            0 <= k < self.object_vertices@.len() ==> (#[trigger] self.object_vertices@[k]).bounded(
                9_000,
            )
        &&& 0 <= self.alpha <= ALPHA_FULL + ALPHA_STEP
    }

    /// A fresh display: no lives shown yet, no score, the banner
    /// fully transparent, and the ship icon built from the unit arrow
    /// scaled by six.
    pub fn new() -> (h: Hud)
        ensures
            h.wf(),
            h.player_lives == 0,
            h.score == 0,
            h.alpha == 0,
            h.object_vertices@[0].x == 0 && h.object_vertices@[0].y == 9_000,
            h.object_vertices@[1].x == -6_000 && h.object_vertices@[1].y == -6_000,
            h.object_vertices@[2].x == 6_000 && h.object_vertices@[2].y == -6_000,
            h.object_vertices@[3].x == 0 && h.object_vertices@[3].y == 9_000,
    {
        let mut object_vertices: Vec<Vec2> = Vec::new();
        object_vertices.push(Vec2 { x: 0, y: 1_500 }.multiply(ICON_SCALE));
        object_vertices.push(Vec2 { x: -1_000, y: -1_000 }.multiply(ICON_SCALE));
        object_vertices.push(Vec2 { x: 1_000, y: -1_000 }.multiply(ICON_SCALE));
        object_vertices.push(Vec2 { x: 0, y: 1_500 }.multiply(ICON_SCALE));
        proof {
            crate::math::lemma_tdiv_exact(9, 1000);
            crate::math::lemma_tdiv_exact(-6, 1000);
            crate::math::lemma_tdiv_exact(6, 1000);
            crate::math::lemma_tdiv_exact(0, 1000);
            assert(1_500 * 6_000 == 9 * 1000 * 1000 && (-1_000) * 6_000 == -6 * 1000 * 1000
                && 1_000 * 6_000 == 6 * 1000 * 1000 && 0 * 6_000 == 0 * 1000);
        }
        Hud { player_lives: 0, score: 0, object_vertices, alpha: 0 }
    }

    pub fn set_lives(&mut self, lives: i32)
        ensures
            *final(self) == (Hud { player_lives: lives, ..*old(self) }),
    {
        self.player_lives = lives;
    }

    pub fn set_score(&mut self, score: i64)
        ensures
            *final(self) == (Hud { score: score, ..*old(self) }),
    {
        self.score = score;
    }

    /// The ship icon translated to a screen position, for one life
    /// marker.
    pub fn build_ship_icon(&self, location: Vec2) -> (icon: Vec<Vec2>)
        requires
            self.wf(),
            location.bounded(100_000_000),
        ensures
            icon@.len() == self.object_vertices@.len(),
            forall|k: int|
                0 <= k < icon@.len() ==> (#[trigger] icon@[k]).x == self.object_vertices@[k].x
                    + location.x && icon@[k].y == self.object_vertices@[k].y + location.y,
    {
        let mut icon: Vec<Vec2> = Vec::new();
        let mut i: usize = 0;
        while i < self.object_vertices.len()
            invariant
                0 <= i <= self.object_vertices@.len(),
                forall|k: int|
                    0 <= k < self.object_vertices@.len() ==> (
                    #[trigger] self.object_vertices@[k]).bounded(9_000),
                location.bounded(100_000_000),
                icon@.len() == i,
                forall|k: int|
                    0 <= k < icon@.len() ==> (#[trigger] icon@[k]).x == self.object_vertices@[k].x
                        + location.x && icon@[k].y == self.object_vertices@[k].y + location.y,
            decreases self.object_vertices@.len() - i,
        {
            let v = self.object_vertices[i];
            icon.push(v.plus(location));
            i = i + 1;
        }
        icon
    }

    /// Fade the game-over banner in a step per tick, but only once
    /// the last life is gone.
    pub fn update(&mut self)
        requires
            old(self).wf(),
        ensures
            final(self).wf(),
            old(self).player_lives == 0 && old(self).alpha < ALPHA_FULL ==> final(self).alpha
                == old(self).alpha + ALPHA_STEP,
            !(old(self).player_lives == 0 && old(self).alpha < ALPHA_FULL) ==> final(self).alpha
                == old(self).alpha,
            *final(self) == (Hud { alpha: final(self).alpha, ..*old(self) }),
    {
        if self.player_lives == 0 && self.alpha < ALPHA_FULL {
            self.alpha = self.alpha + ALPHA_STEP;
        }
    }
}

} // verus!
