//! Plane geometry carried as exact integers.
//!
//! World coordinates in this arena are whole units, so positions and extents
//! are held as `i64` components. Scaled quantities (a direction scaled by a
//! thrust in hundredths) stay exact products of their inputs.

use vstd::prelude::*;

verus! {

/// A point or vector of the plane with whole-number components.
#[derive(Clone, Copy, PartialEq, Eq, Structural, Debug)]
pub struct Vec2I {
    pub x: i64,
    pub y: i64,
}

/// Mirror image across the vertical axis (negate the x component).
pub open spec fn reflect_across_y_axis(v: Vec2I) -> Vec2I {
    Vec2I { x: (-v.x) as i64, y: v.y }
}

/// Mirror image across the horizontal axis (negate the y component).
pub open spec fn reflect_across_x_axis(v: Vec2I) -> Vec2I {
    Vec2I { x: v.x, y: (-v.y) as i64 }
}

impl Vec2I {
    /// The origin.
    pub fn zero() -> (v: Vec2I)
        ensures
            v.x == 0,
            v.y == 0,
    {
        Vec2I { x: 0, y: 0 }
    }

    /// Scale both components by `k`, exactly.
    pub fn scaled(self, k: i64) -> (r: Vec2I)
        requires
            -1_000_000 <= self.x <= 1_000_000,
            -1_000_000 <= self.y <= 1_000_000,
            -1_000_000 <= k <= 1_000_000,
        ensures
            r.x == self.x * k,
            r.y == self.y * k,
    {
        proof {
            lemma_bounded_product(self.x as int, k as int, 1_000_000);
            lemma_bounded_product(self.y as int, k as int, 1_000_000);
        }
        Vec2I { x: self.x * k, y: self.y * k }
    }
}

/// Two factors no larger than `bound` in magnitude have a product no larger
/// than `bound * bound` in magnitude.
pub proof fn lemma_bounded_product(a: int, b: int, bound: int)
    requires
        0 <= bound,
        -bound <= a <= bound,
        -bound <= b <= bound,
    ensures
        -bound * bound <= a * b <= bound * bound,
{
    assert(-bound * bound <= a * b <= bound * bound) by (nonlinear_arith)
        requires
            0 <= bound,
            -bound <= a <= bound,
            -bound <= b <= bound,
    ;
}

} // verus!
