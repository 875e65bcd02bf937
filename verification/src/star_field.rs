//! The decorative background: a few dozen stars scattered uniformly
//! over the window, fixed for the life of a scene.

use crate::math::Vec2;
use crate::rng::RandomSource;
use vstd::prelude::*;

verus! {

pub struct StarField {
    pub stars: Vec<Vec2>,
}

impl StarField {
    /// Every star lies on the window, in window coordinates.
    pub open spec fn wf(self, window_size: Vec2) -> bool {
        forall|k: int|
            0 <= k < self.stars@.len() ==> 0 <= (#[trigger] self.stars@[k]).x < window_size.x && 0
                <= self.stars@[k].y < window_size.y
    }

    /// Scatter 45 to 89 stars uniformly over the window.
    pub fn new<R: RandomSource>(window_size: &Vec2, rng: &mut R) -> (f: StarField)
        requires
            2 <= window_size.x <= 8_000_000,
            2 <= window_size.y <= 8_000_000,
        ensures
            f.wf(*window_size),
            45 <= f.stars@.len() < 90,
    {
        StarField { stars: StarField::generate_stars(window_size, rng) }
    }

    fn generate_stars<R: RandomSource>(window_size: &Vec2, rng: &mut R) -> (stars: Vec<Vec2>)
        requires
            2 <= window_size.x <= 8_000_000,
            2 <= window_size.y <= 8_000_000,
        ensures
            45 <= stars@.len() < 90,
            forall|k: int|
                0 <= k < stars@.len() ==> 0 <= (#[trigger] stars@[k]).x < window_size.x && 0
                    <= stars@[k].y < window_size.y,
    {
        let num_stars = rng.next_in_range(45, 90);
        let mut stars: Vec<Vec2> = Vec::new();
        let mut i: i64 = 0;
        while i < num_stars
            invariant
                0 <= i <= num_stars < 90,
                2 <= window_size.x <= 8_000_000,
                2 <= window_size.y <= 8_000_000,
                stars@.len() == i,
                forall|k: int|
                    0 <= k < stars@.len() ==> 0 <= (#[trigger] stars@[k]).x < window_size.x && 0
                        <= stars@[k].y < window_size.y,
            decreases num_stars - i,
        {
            let x = rng.next_in_range(0, window_size.x);
            let y = rng.next_in_range(0, window_size.y);
            stars.push(Vec2 { x, y });
            i = i + 1;
        }
        stars
    }
}

} // verus!
