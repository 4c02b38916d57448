//! The pairwise force law.
//!
//! A receiver `a` feels from a source `b` a force along the line from `a`
//! to `b`. Between `min_r` and `max_r` its magnitude follows a triangular
//! kernel scaled by the coefficient of the pair's types: zero at both ends,
//! the coefficient itself at the midpoint. At `min_r` or closer the
//! particles repel each other whatever the coefficient. Beyond `max_r`, and
//! for particles that overlap exactly, there is no force.

use vstd::prelude::*;
use vstd::arithmetic::div_mod::{
    lemma_div_by_multiple,
    lemma_div_is_ordered,
    lemma_fundamental_div_mod,
    lemma_mod_pos_bound,
};
use crate::fixed::{abs, div_round, div_trunc, div_trunc_i128, LIMIT, ONE};
use crate::particle::{Particle, SimParams};

verus! {

/// Softening length of the short-range repulsion (two units).
pub const R_SMOOTH: i64 = 2_000_000;

/// Pairs closer than this (a tenth of a unit) exert no force: the guard
/// against overlapping particles, whose direction is undefined.
pub const MIN_DIST: i64 = 100_000;

pub open spec fn is_sqrt_floor(n: int, r: int) -> bool {
    0 <= r && r * r <= n && n < (r + 1) * (r + 1)
}

/// The integer square root of `n`, rounded down.
pub open spec fn sqrt_floor(n: int) -> int {
    choose|r: int| is_sqrt_floor(n, r)
}

/// Folds an offset on a torus of the given size to the nearest image.
pub open spec fn fold(d: int, size: int) -> int {
    d - size * div_round(d, size)
}

/// The signed offset from `from` to `to` along one axis.
pub open spec fn offset(from: int, to: int, size: int, wrap: bool) -> int {
    if wrap {
        fold(to - from, size)
    } else {
        to - from
    }
}

/// The displacement from `a` to `b`, folded on a torus when the world wraps.
pub open spec fn separation(a: Particle, b: Particle, p: SimParams) -> (int, int) {
    (
        offset(a.x as int, b.x as int, p.width as int, p.wrap),
        offset(a.y as int, b.y as int, p.height as int, p.wrap),
    )
}

pub open spec fn dist_sq(a: Particle, b: Particle, p: SimParams) -> int {
    let (dx, dy) = separation(a, b, p);
    dx * dx + dy * dy
}

/// The distance from `a` to `b`, rounded down to a fixed-point step.
pub open spec fn distance(a: Particle, b: Particle, p: SimParams) -> int {
    sqrt_floor(dist_sq(a, b, p))
}

/// Signed magnitude of the force at distance `dist` (`dist <= max_r`), for
/// coefficient `g`; positive attracts, negative repels.
pub open spec fn kernel(g: int, dist: int, min_r: int, max_r: int) -> int {
    if dist > min_r {
        div_trunc(g * (max_r - min_r - abs(2 * dist - min_r - max_r)), max_r - min_r)
    } else {
        div_trunc(
            R_SMOOTH * min_r * (dist - min_r),
            (min_r + R_SMOOTH) * (dist + R_SMOOTH),
        )
    }
}

/// Whether the pair is close enough, and far enough apart, to interact.
pub open spec fn interacts(a: Particle, b: Particle, p: SimParams) -> bool {
    let d2 = dist_sq(a, b, p);
    MIN_DIST * MIN_DIST <= d2 && d2 <= p.max_r * p.max_r
}

/// The force that `a` feels from `b` when the coefficient of their types is `g`.
pub open spec fn pair_force(a: Particle, b: Particle, g: int, p: SimParams) -> (int, int) {
    if !interacts(a, b, p) {
        (0, 0)
    } else {
        let (dx, dy) = separation(a, b, p);
        let dist = distance(a, b, p);
        let m = kernel(g, dist, p.min_r as int, p.max_r as int);
        (div_trunc(m * dx, dist), div_trunc(m * dy, dist))
    }
}

proof fn lemma_sqrt_floor_unique(n: int, r: int)
    requires
        is_sqrt_floor(n, r),
    ensures
        sqrt_floor(n) == r,
{
    let s = sqrt_floor(n);
    assert(is_sqrt_floor(n, s));
    if s < r {
        assert((s + 1) * (s + 1) <= r * r) by (nonlinear_arith)
            requires
                0 <= s < r,
        ;
    }
    if r < s {
        assert((r + 1) * (r + 1) <= s * s) by (nonlinear_arith)
            requires
                0 <= r < s,
        ;
    }
}

/// A quotient is bounded by `c` when the dividend is bounded by `c` times the divisor.
proof fn lemma_quotient_bound(a: int, b: int, c: int)
    requires
        b >= 1,
        c >= 0,
        abs(a) <= c * b,
    ensures
        abs(div_trunc(a, b)) <= c,
{
    let n = abs(a);
    lemma_div_is_ordered(n, c * b, b);
    lemma_div_by_multiple(c, b);
    assert(n / b >= 0) by (nonlinear_arith)
        requires
            n >= 0,
            b >= 1,
    ;
}

proof fn lemma_fold_bound(d: int, w: int)
    requires
        w > 0,
    ensures
        -w <= 2 * fold(d, w) <= w,
{
    let m = 2 * w;
    if d >= 0 {
        let x = 2 * d + w;
        let q = x / m;
        lemma_fundamental_div_mod(x, m);
        lemma_mod_pos_bound(x, m);
        assert(m * q == 2 * (w * q)) by (nonlinear_arith)
            requires
                m == 2 * w,
        ;
        assert(div_round(d, w) == q);
    } else {
        let x = -2 * d + w;
        let q = x / m;
        lemma_fundamental_div_mod(x, m);
        lemma_mod_pos_bound(x, m);
        assert(m * q == 2 * (w * q)) by (nonlinear_arith)
            requires
                m == 2 * w,
        ;
        assert(div_round(d, w) == -q);
        assert(w * (-q) == -(w * q)) by (nonlinear_arith);
    }
}

/// A component of a vector is no longer than the vector's floored length.
proof fn lemma_component_le_dist(dx: int, dy: int, dist: int)
    requires
        is_sqrt_floor(dx * dx + dy * dy, dist),
    ensures
        abs(dx) <= dist,
{
    assert(dy * dy >= 0) by (nonlinear_arith);
    if abs(dx) > dist {
        let e = abs(dx);
        assert(e * e == dx * dx) by (nonlinear_arith)
            requires
                e == abs(dx),
        ;
        assert((dist + 1) * (dist + 1) <= e * e) by (nonlinear_arith)
            requires
                0 <= dist,
                dist + 1 <= e,
        ;
    }
}

/// Floor of the square root of `n`, found by bisection below `hi`.
fn isqrt(n: i128, hi: i128) -> (r: i128)
    requires
        0 <= n,
        1 <= hi <= 0x4000_0000_0000_0000,
        n < hi * hi,
    ensures
        is_sqrt_floor(n as int, r as int),
        r == sqrt_floor(n as int),
        r < hi,
{
    let mut lo: i128 = 0;
    let mut up: i128 = hi;
    while up - lo > 1
        invariant
            0 <= lo < up <= hi,
            hi <= 0x4000_0000_0000_0000,
            lo * lo <= n,
            n < up * up,
        decreases up - lo,
    {
        let mid: i128 = lo + (up - lo) / 2;
        assert(mid * mid <= 0x1000_0000_0000_0000_0000_0000_0000_0000) by (nonlinear_arith)
            requires
                0 <= mid <= 0x4000_0000_0000_0000,
        ;
        if mid * mid <= n {
            lo = mid;
        } else {
            up = mid;
        }
    }
    proof {
        lemma_sqrt_floor_unique(n as int, lo as int);
    }
    lo
}

/// The offset `d` folded on a torus of size `w`.
fn fold_offset(d: i128, w: i128) -> (r: i128)
    requires
        0 < w <= LIMIT,
        abs(d as int) <= 4 * LIMIT,
    ensures
        r == fold(d as int, w as int),
        -w <= 2 * r <= w,
{
    proof {
        lemma_fold_bound(d as int, w as int);
    }
    let m: i128 = 2 * w;
    let q: i128 = if d >= 0 {
        (2 * d + w) / m
    } else {
        let t: i128 = (-2 * d + w) / m;
        -t
    };
    assert(q == div_round(d as int, w as int));
    d - w * q
}

/// The signed offset from `from` to `to` along an axis of the given size.
fn axis_offset(from: i64, to: i64, size: i64, wrap: bool) -> (r: i128)
    requires
        abs(from as int) <= LIMIT,
        abs(to as int) <= LIMIT,
        0 < size <= LIMIT,
    ensures
        r == offset(from as int, to as int, size as int, wrap),
        abs(r as int) <= 2 * LIMIT,
{
    let d: i128 = to as i128 - from as i128;
    if wrap {
        fold_offset(d, size as i128)
    } else {
        d
    }
}

/// The kernel's magnitude at distance `dist`.
pub fn kernel_magnitude(g: i64, dist: i64, min_r: i64, max_r: i64) -> (m: i64)
    requires
        -ONE <= g <= ONE,
        0 <= min_r <= max_r <= LIMIT,
        0 <= dist <= max_r,
    ensures
        m == kernel(g as int, dist as int, min_r as int, max_r as int),
        abs(m as int) <= ONE || abs(m as int) <= min_r,
{
    let g: i128 = g as i128;
    let dist: i128 = dist as i128;
    let min_r: i128 = min_r as i128;
    let max_r: i128 = max_r as i128;
    if dist > min_r {
        let span: i128 = max_r - min_r;
        let c: i128 = 2 * dist - min_r - max_r;
        let c_abs: i128 = if c < 0 {
            -c
        } else {
            c
        };
        let w: i128 = span - c_abs;
        assert(0 <= w <= span);
        assert(abs(g * w) <= ONE * span) by (nonlinear_arith)
            requires
                -ONE <= g <= ONE,
                0 <= w <= span,
        ;
        let num: i128 = g * w;
        let m: i128 = div_trunc_i128(num, span);
        proof {
            assert(abs(num as int) <= abs(g as int) * span) by (nonlinear_arith)
                requires
                    num == g * w,
                    0 <= w <= span,
            ;
            lemma_quotient_bound(num as int, span as int, abs(g as int));
        }
        m as i64
    } else {
        let rs: i128 = R_SMOOTH as i128;
        assert(0 <= rs * min_r <= 0x1_0000_0000_0000_0000) by (nonlinear_arith)
            requires
                rs == R_SMOOTH,
                0 <= min_r <= LIMIT,
        ;
        let k: i128 = rs * min_r;
        assert(-0x1_0000_0000_0000_0000 * LIMIT <= k * (dist - min_r) <= 0) by (nonlinear_arith)
            requires
                0 <= k <= 0x1_0000_0000_0000_0000,
                0 <= min_r - dist <= LIMIT,
        ;
        let num: i128 = k * (dist - min_r);
        assert(0 < (min_r + rs) * (dist + rs) <= (LIMIT + R_SMOOTH) * (LIMIT + R_SMOOTH))
            by (nonlinear_arith)
            requires
                rs == R_SMOOTH,
                0 <= min_r <= LIMIT,
                0 <= dist <= LIMIT,
        ;
        let den: i128 = (min_r + rs) * (dist + rs);
        proof {
            assert(abs(num as int) <= min_r * den) by (nonlinear_arith)
                requires
                    num == rs * min_r * (dist - min_r),
                    den == (min_r + rs) * (dist + rs),
                    rs > 0,
                    0 <= dist <= min_r,
            ;
            lemma_quotient_bound(num as int, den as int, min_r as int);
        }
        let m: i128 = div_trunc_i128(num, den);
        m as i64
    }
}

/// The force that `a` feels from `b`, for the coefficient `g` of their types.
pub fn force_between(a: &Particle, b: &Particle, g: i64, p: &SimParams) -> (f: (i64, i64))
    requires
        a.in_range(),
        b.in_range(),
        p.wf(),
        -ONE <= g <= ONE,
    ensures
        f.0 == pair_force(*a, *b, g as int, *p).0,
        f.1 == pair_force(*a, *b, g as int, *p).1,
        abs(f.0 as int) <= LIMIT,
        abs(f.1 as int) <= LIMIT,
{
    let dx: i128 = axis_offset(a.x, b.x, p.width, p.wrap);
    let dy: i128 = axis_offset(a.y, b.y, p.height, p.wrap);
    assert(0 <= dx * dx <= 4 * LIMIT * LIMIT) by (nonlinear_arith)
        requires
            abs(dx as int) <= 2 * LIMIT,
    ;
    assert(0 <= dy * dy <= 4 * LIMIT * LIMIT) by (nonlinear_arith)
        requires
            abs(dy as int) <= 2 * LIMIT,
    ;
    let d2: i128 = dx * dx + dy * dy;
    let max_r: i128 = p.max_r as i128;
    assert(max_r * max_r <= LIMIT * LIMIT) by (nonlinear_arith)
        requires
            0 <= max_r <= LIMIT,
    ;
    if d2 < (MIN_DIST as i128) * (MIN_DIST as i128) || d2 > max_r * max_r {
        return (0, 0);
    }
    assert(d2 < (max_r + 1) * (max_r + 1)) by (nonlinear_arith)
        requires
            d2 <= max_r * max_r,
            max_r >= 0,
    ;
    let dist: i128 = isqrt(d2, max_r + 1);
    assert(dist >= 1) by (nonlinear_arith)
        requires
            is_sqrt_floor(d2 as int, dist as int),
            d2 >= 1,
    ;
    let m: i64 = kernel_magnitude(g, dist as i64, p.min_r, p.max_r);
    let m: i128 = m as i128;
    proof {
        lemma_component_le_dist(dx as int, dy as int, dist as int);
        assert(dy * dy + dx * dx == d2);
        lemma_component_le_dist(dy as int, dx as int, dist as int);
    }
    assert(abs(m * dx) <= abs(m as int) * dist && abs(m * dy) <= abs(m as int) * dist)
        by (nonlinear_arith)
        requires
            abs(dx as int) <= dist,
            abs(dy as int) <= dist,
    ;
    assert(abs(m as int) * dist <= LIMIT * LIMIT) by (nonlinear_arith)
        requires
            abs(m as int) <= LIMIT,
            0 <= dist <= LIMIT,
    ;
    let fx: i128 = div_trunc_i128(m * dx, dist);
    let fy: i128 = div_trunc_i128(m * dy, dist);
    proof {
        lemma_quotient_bound((m * dx) as int, dist as int, abs(m as int));
        lemma_quotient_bound((m * dy) as int, dist as int, abs(m as int));
    }
    (fx as i64, fy as i64)
}

/// Every non-negative integer has a floored square root.
pub proof fn lemma_sqrt_floor_exists(n: int)
    requires
        n >= 0,
    ensures
        is_sqrt_floor(n, sqrt_floor(n)),
    decreases n,
{
    if n == 0 {
        assert(is_sqrt_floor(0, 0));
    } else {
        lemma_sqrt_floor_exists(n - 1);
        let r = sqrt_floor(n - 1);
        if (r + 1) * (r + 1) <= n {
            assert((r + 2) * (r + 2) > (r + 1) * (r + 1)) by (nonlinear_arith)
                requires
                    r >= 0,
            ;
            assert(is_sqrt_floor(n, r + 1));
        } else {
            assert(is_sqrt_floor(n, r));
        }
    }
}

/// A pair that interacts is at a distance of at least one step and at most `max_r`.
pub proof fn lemma_interacting_distance(a: Particle, b: Particle, p: SimParams)
    requires
        p.wf(),
        interacts(a, b, p),
    ensures
        is_sqrt_floor(dist_sq(a, b, p), distance(a, b, p)),
        1 <= distance(a, b, p) <= p.max_r,
{
    let d2 = dist_sq(a, b, p);
    let (dx, dy) = separation(a, b, p);
    assert(dx * dx >= 0 && dy * dy >= 0) by (nonlinear_arith);
    lemma_sqrt_floor_exists(d2);
    let r = distance(a, b, p);
    let m = p.max_r as int;
    if r > m {
        assert(r * r > m * m) by (nonlinear_arith)
            requires
                r > m,
                m >= 0,
        ;
    }
    if r < 1 {
        assert(r == 0);
    }
}

/// With a zero coefficient, a pair farther apart than `min_r` exerts no
/// force on each other, whatever the distance.
pub proof fn lemma_zero_coefficient_exerts_no_force(a: Particle, b: Particle, p: SimParams)
    requires
        p.wf(),
        distance(a, b, p) > p.min_r,
    ensures
        pair_force(a, b, 0, p) == (0int, 0int),
{
    if interacts(a, b, p) {
        lemma_interacting_distance(a, b, p);
        let dist = distance(a, b, p);
        let span = p.max_r - p.min_r;
        let x = span - abs(2 * dist - p.min_r - p.max_r);
        assert(0 * x == 0);
        assert(kernel(0, dist, p.min_r as int, p.max_r as int) == 0);
        let (dx, dy) = separation(a, b, p);
        assert(0 * dx == 0 && 0 * dy == 0);
    }
}

/// At the midpoint of `min_r` and `max_r` the kernel's magnitude is the
/// coefficient itself.
pub proof fn lemma_kernel_peak_at_midpoint(g: int, dist: int, min_r: int, max_r: int)
    requires
        min_r < max_r,
        2 * dist == min_r + max_r,
    ensures
        kernel(g, dist, min_r, max_r) == g,
{
    let span = max_r - min_r;
    assert(abs(2 * dist - min_r - max_r) == 0);
    if g >= 0 {
        lemma_div_by_multiple(g, span);
    } else {
        lemma_div_by_multiple(-g, span);
        assert(-(g * span) == (-g) * span) by (nonlinear_arith);
    }
}

/// The kernel vanishes at `min_r` and at `max_r`, whatever the coefficient.
pub proof fn lemma_kernel_vanishes_at_ends(g: int, min_r: int, max_r: int)
    requires
        0 <= min_r <= max_r,
    ensures
        kernel(g, min_r, min_r, max_r) == 0,
        kernel(g, max_r, min_r, max_r) == 0,
{
    let den = (min_r + R_SMOOTH) * (min_r + R_SMOOTH);
    assert(den > 0) by (nonlinear_arith)
        requires
            den == (min_r + R_SMOOTH) * (min_r + R_SMOOTH),
            min_r >= 0,
    ;
    assert(R_SMOOTH * min_r * (min_r - min_r) == 0);
    if max_r > min_r {
        assert(abs(2 * max_r - min_r - max_r) == max_r - min_r);
        assert(g * (max_r - min_r - abs(2 * max_r - min_r - max_r)) == 0);
    }
}

/// A particle exerts no force on itself.
pub proof fn lemma_self_pair_exerts_no_force(a: Particle, g: int, p: SimParams)
    requires
        p.wf(),
    ensures
        pair_force(a, a, g, p) == (0int, 0int),
{
    let w = p.width as int;
    let h = p.height as int;
    assert(w / (2 * w) == 0) by (nonlinear_arith)
        requires
            w > 0,
    ;
    assert(h / (2 * h) == 0) by (nonlinear_arith)
        requires
            h > 0,
    ;
    assert(div_round(0, w) == 0 && div_round(0, h) == 0);
    assert(w * 0 == 0 && h * 0 == 0);
    assert(fold(0, w) == 0 && fold(0, h) == 0);
    assert(separation(a, a, p) == (0int, 0int));
    assert(dist_sq(a, a, p) == 0);
}

/// A pair exactly `min_r` or exactly `max_r` apart exerts no force, whatever
/// the coefficient.
pub proof fn lemma_pair_force_vanishes_at_ends(a: Particle, b: Particle, g: int, p: SimParams)
    requires
        p.wf(),
        distance(a, b, p) == p.min_r || distance(a, b, p) == p.max_r,
    ensures
        pair_force(a, b, g, p) == (0int, 0int),
{
    if interacts(a, b, p) {
        lemma_kernel_vanishes_at_ends(g, p.min_r as int, p.max_r as int);
        lemma_interacting_distance(a, b, p);
        let (dx, dy) = separation(a, b, p);
        let m = kernel(g, distance(a, b, p), p.min_r as int, p.max_r as int);
        assert(m == 0);
        assert(m * dx == 0 && m * dy == 0);
    }
}

/// A pair at the midpoint of `min_r` and `max_r`, and at least `MIN_DIST`
/// apart, exerts the coefficient itself along the unit direction.
pub proof fn lemma_pair_force_at_midpoint(a: Particle, b: Particle, g: int, p: SimParams)
    requires
        p.wf(),
        p.min_r < p.max_r,
        2 * distance(a, b, p) == p.min_r + p.max_r,
        distance(a, b, p) >= MIN_DIST,
    ensures
        ({
            let (dx, dy) = separation(a, b, p);
            let dist = distance(a, b, p);
            pair_force(a, b, g, p) == (div_trunc(g * dx, dist), div_trunc(g * dy, dist))
        }),
{
    let d2 = dist_sq(a, b, p);
    let (dx, dy) = separation(a, b, p);
    assert(dx * dx >= 0 && dy * dy >= 0) by (nonlinear_arith);
    lemma_sqrt_floor_exists(d2);
    let r = distance(a, b, p);
    let mx = p.max_r as int;
    assert(MIN_DIST * MIN_DIST <= r * r) by (nonlinear_arith)
        requires
            r >= MIN_DIST,
    ;
    assert(d2 <= mx * mx) by (nonlinear_arith)
        requires
            d2 < (r + 1) * (r + 1),
            0 <= r,
            r + 1 <= mx,
    ;
    assert(interacts(a, b, p));
    lemma_kernel_peak_at_midpoint(g, r, p.min_r as int, p.max_r as int);
}

} // verus!
