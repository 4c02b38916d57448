//! The polygon drawn once per particle: a hexagon, fanned into triangles.

use vstd::prelude::*;
use crate::fixed::{div_trunc, div_trunc_i128, LIMIT, ONE};

verus! {

/// The square root of three, in fixed point.
pub const SQRT_3: i64 = 1_732_051;

/// The polygon's corners for a particle of size `radius` (in hundredths of
/// the world's unit): six (x, y) pairs, counterclockwise from the top left.
pub open spec fn hexagon_vertices(radius: int) -> Seq<i64> {
    let r = radius / 100;
    let h = r / 2;
    let a = div_trunc(SQRT_3 * h, ONE as int);
    let (nh, na, nr) = (0 - h, 0 - a, 0 - r);
    seq![
        nh as i64, a as i64, h as i64, a as i64,
        r as i64, 0, h as i64, na as i64,
        nh as i64, na as i64, nr as i64, 0,
    ]
}

/// The four triangles that fill the hexagon, as corner indices.
pub open spec fn hexagon_indices() -> Seq<u32> {
    seq![0, 2, 1, 0, 3, 2, 0, 4, 3, 0, 5, 4]
}

/// The corners and the triangles of the polygon for particles of size `radius`.
pub fn create_hexagon_data(radius: i64) -> (r: (Vec<i64>, Vec<u32>))
    requires
        0 <= radius <= LIMIT,
    ensures
        r.0@ == hexagon_vertices(radius as int),
        r.1@ == hexagon_indices(),
{
    let r: i64 = radius / 100;
    let h: i64 = r / 2;
    assert(0 <= SQRT_3 * h <= SQRT_3 * LIMIT) by (nonlinear_arith)
        requires
            0 <= h <= LIMIT,
    ;
    let a: i128 = div_trunc_i128(SQRT_3 as i128 * h as i128, ONE as i128);
    proof {
        crate::fixed::lemma_div_trunc_bound((SQRT_3 * h) as int, ONE as int);
        assert(a <= h * 2) by (nonlinear_arith)
            requires
                a == (SQRT_3 * h) / (ONE as int),
                h >= 0,
        ;
    }
    let a: i64 = a as i64;
    let nh: i64 = 0 - h;
    let na: i64 = 0 - a;
    let nr: i64 = 0 - r;
    let vertices: Vec<i64> = vec![nh, a, h, a, r, 0, h, na, nh, na, nr, 0];
    let indices: Vec<u32> = vec![0, 2, 1, 0, 3, 2, 0, 4, 3, 0, 5, 4];
    assert(vertices@ =~= hexagon_vertices(radius as int));
    assert(indices@ =~= hexagon_indices());
    (vertices, indices)
}

} // verus!
