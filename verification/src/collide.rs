//! Circle-circle collision: two entities overlap exactly when the squared
//! distance of their centers is strictly below the square of the summed
//! radii, so touching circles do not count as a hit.

use vstd::prelude::*;

use crate::geom::{dist2, dist_squared, in_box, lemma_sq_neg, Vec2};
use crate::{COORD_LIMIT, RADIUS_LIMIT};

verus! {

pub open spec fn collides_spec(pa: Vec2, ra: int, pb: Vec2, rb: int) -> bool {
    dist2(pa, pb) < (ra + rb) * (ra + rb)
}

pub fn collides(pa: Vec2, ra: i64, pb: Vec2, rb: i64) -> (r: bool)
    requires
        in_box(pa, COORD_LIMIT as int),
        in_box(pb, COORD_LIMIT as int),
        0 <= ra <= RADIUS_LIMIT,
        0 <= rb <= RADIUS_LIMIT,
    ensures
        r == collides_spec(pa, ra as int, pb, rb as int),
{
    let d2 = dist_squared(pa, pb);
    let rsum = ra + rb;
    proof {
        assert(rsum * rsum <= 2_000_000 * 2_000_000 && rsum * rsum >= 0) by (nonlinear_arith)
            requires
                0 <= rsum <= 2_000_000,
        ;
    }
    d2 < rsum * rsum
}

/// Law: collision is symmetric — testing A against B and B against A give
/// the same answer for every pair of entities.
pub proof fn lemma_collides_symmetric(pa: Vec2, ra: int, pb: Vec2, rb: int)
    ensures
        collides_spec(pa, ra, pb, rb) == collides_spec(pb, rb, pa, ra),
{
    lemma_sq_neg(pa.x as int - pb.x as int);
    lemma_sq_neg(pa.y as int - pb.y as int);
}

} // verus!
