//! One simulation tick: summed pairwise forces, then integration and the
//! boundary policy, for every particle against the state at the start of
//! the tick.

use vstd::prelude::*;
use crate::fixed::{abs, div_trunc, div_trunc_i128, LIMIT, ONE};
use crate::force::{distance, force_between, pair_force, separation};
use crate::matrix::AttractionMatrix;
use crate::particle::{Particle, SimParams};

verus! {

/// Most particles one type may have.
pub const MAX_PER_TYPE: usize = 1024;

/// Most particles a simulation may have.
pub const MAX_PARTICLES: usize = 16384;

/// Largest time step of one tick (a thousand units of time).
pub const MAX_DT: i64 = 1_000_000_000;

/// Why a tick was refused.
#[derive(Clone, Copy, Debug, PartialEq, Eq, Structural)]
pub enum TickError {
    /// A coordinate or a velocity would leave `[-LIMIT, LIMIT]`.
    OutOfRange,
}

/// Position and velocity of a particle as unbounded integers.
pub struct Motion {
    pub x: int,
    pub y: int,
    pub vx: int,
    pub vy: int,
}

pub open spec fn motion_of(p: Particle) -> Motion {
    Motion { x: p.x as int, y: p.y as int, vx: p.vx as int, vy: p.vy as int }
}

pub open spec fn motion_fits(mo: Motion) -> bool {
    &&& abs(mo.x) <= LIMIT
    &&& abs(mo.y) <= LIMIT
    &&& abs(mo.vx) <= LIMIT
    &&& abs(mo.vy) <= LIMIT
}

/// Particles that a tick can take: few enough, in range, and of active types.
pub open spec fn population_ok(ps: Seq<Particle>, m: AttractionMatrix) -> bool {
    &&& ps.len() <= MAX_PARTICLES
    &&& forall|k: int| 0 <= k < ps.len() ==> (#[trigger] ps[k]).in_range()
    &&& forall|k: int| 0 <= k < ps.len() ==> (#[trigger] ps[k]).ptype < m.n_types
}

/// Whether a position lies off the world along an axis of the given size.
pub open spec fn outside(pos: int, size: int) -> bool {
    pos >= size || pos < 0
}

/// The fold applied to a position that left a wrapping world.
pub open spec fn wrap_axis(pos: int, size: int) -> int {
    if outside(pos, size) {
        abs(pos - size)
    } else {
        pos
    }
}

/// Reverses a velocity component and amplifies it by half.
pub open spec fn bounce(v: int) -> int {
    div_trunc(-3 * v, 2)
}

/// Advances one axis: the force scaled by the speed changes the velocity,
/// the velocity moves the position over `dt`, friction decays the velocity
/// once, then the boundary policy applies. Returns (position, velocity).
pub open spec fn axis_step(pos: int, vel: int, force: int, size: int, s: SimParams, dt: int) -> (
    int,
    int,
) {
    let v1 = vel + div_trunc(force * s.speed, ONE as int);
    let x1 = pos + div_trunc(v1 * dt, ONE as int);
    let v2 = div_trunc(v1 * (ONE - s.friction), ONE as int);
    if !outside(x1, size) {
        (x1, v2)
    } else if s.wrap {
        (wrap_axis(x1, size), v2)
    } else {
        (x1, bounce(v2))
    }
}

/// The force that particle `i` feels from the first `n` particles but itself.
pub open spec fn net_force(
    ps: Seq<Particle>,
    i: int,
    m: AttractionMatrix,
    s: SimParams,
    n: int,
) -> (int, int)
    decreases n,
{
    if n <= 0 {
        (0, 0)
    } else {
        let prev = net_force(ps, i, m, s, n - 1);
        if n - 1 == i {
            prev
        } else {
            let f = pair_force(
                ps[i],
                ps[n - 1],
                m.coef(ps[i].ptype as int, ps[n - 1].ptype as int),
                s,
            );
            (prev.0 + f.0, prev.1 + f.1)
        }
    }
}

/// Where particle `i` is after one tick of length `dt`.
pub open spec fn stepped(
    ps: Seq<Particle>,
    i: int,
    m: AttractionMatrix,
    s: SimParams,
    dt: int,
) -> Motion {
    let f = net_force(ps, i, m, s, ps.len() as int);
    let p = ps[i];
    let (x, vx) = axis_step(p.x as int, p.vx as int, f.0, s.width as int, s, dt);
    let (y, vy) = axis_step(p.y as int, p.vy as int, f.1, s.height as int, s, dt);
    Motion { x, y, vx, vy }
}

/// Whether every particle stays in range through one tick.
pub open spec fn tick_fits(ps: Seq<Particle>, m: AttractionMatrix, s: SimParams, dt: int) -> bool {
    forall|i: int| 0 <= i < ps.len() ==> motion_fits(#[trigger] stepped(ps, i, m, s, dt))
}

/// `next` is `prev` after one tick: same types, each motion stepped.
pub open spec fn advanced(
    prev: Seq<Particle>,
    next: Seq<Particle>,
    m: AttractionMatrix,
    s: SimParams,
    dt: int,
) -> bool {
    &&& next.len() == prev.len()
    &&& forall|i: int|
        0 <= i < prev.len() ==> (#[trigger] next[i]).ptype == prev[i].ptype && motion_of(next[i])
            == stepped(prev, i, m, s, dt)
}

/// The force that particle `i` feels from all the others.
fn sum_forces(
    ps: &Vec<Particle>,
    i: usize,
    m: &AttractionMatrix,
    s: &SimParams,
) -> (f: (i64, i64))
    requires
        m.wf(),
        s.wf(),
        population_ok(ps@, *m),
        i < ps.len(),
    ensures
        f.0 == net_force(ps@, i as int, *m, *s, ps.len() as int).0,
        f.1 == net_force(ps@, i as int, *m, *s, ps.len() as int).1,
        abs(f.0 as int) <= MAX_PARTICLES * LIMIT,
        abs(f.1 as int) <= MAX_PARTICLES * LIMIT,
{
    let n = ps.len();
    let a = &ps[i];
    let mut fx: i64 = 0;
    let mut fy: i64 = 0;
    let mut j: usize = 0;
    while j < n
        invariant
            m.wf(),
            s.wf(),
            population_ok(ps@, *m),
            n == ps.len(),
            i < n,
            *a == ps@[i as int],
            j <= n,
            fx == net_force(ps@, i as int, *m, *s, j as int).0,
            fy == net_force(ps@, i as int, *m, *s, j as int).1,
            abs(fx as int) <= j * LIMIT,
            abs(fy as int) <= j * LIMIT,
        decreases n - j,
    {
        if j != i {
            let b = &ps[j];
            let g = m.get(a.ptype as usize, b.ptype as usize);
            let f = force_between(a, b, g, s);
            fx = fx + f.0;
            fy = fy + f.1;
        }
        j = j + 1;
    }
    (fx, fy)
}

/// One axis of `axis_step`, on machine integers.
fn step_axis(pos: i64, vel: i64, force: i64, size: i64, s: &SimParams, dt: i64) -> (r: (i128, i128))
    requires
        abs(pos as int) <= LIMIT,
        abs(vel as int) <= LIMIT,
        abs(force as int) <= MAX_PARTICLES * LIMIT,
        0 < size <= LIMIT,
        s.wf(),
        0 <= dt <= MAX_DT,
    ensures
        r.0 == axis_step(pos as int, vel as int, force as int, size as int, *s, dt as int).0,
        r.1 == axis_step(pos as int, vel as int, force as int, size as int, *s, dt as int).1,
{
    let pos: i128 = pos as i128;
    let vel: i128 = vel as i128;
    let force: i128 = force as i128;
    let size: i128 = size as i128;
    let speed: i128 = s.speed as i128;
    let dt: i128 = dt as i128;
    assert(abs(force * speed) <= MAX_PARTICLES * LIMIT * LIMIT) by (nonlinear_arith)
        requires
            abs(force as int) <= MAX_PARTICLES * LIMIT,
            abs(speed as int) <= LIMIT,
    ;
    let dv: i128 = div_trunc_i128(force * speed, ONE as i128);
    proof {
        crate::fixed::lemma_div_trunc_bound((force * speed) as int, ONE as int);
    }
    let v1: i128 = vel + dv;
    assert(abs(v1 * dt) <= (MAX_PARTICLES * LIMIT * LIMIT + LIMIT) * MAX_DT) by (nonlinear_arith)
        requires
            abs(v1 as int) <= MAX_PARTICLES * LIMIT * LIMIT + LIMIT,
            0 <= dt <= MAX_DT,
    ;
    let dx: i128 = div_trunc_i128(v1 * dt, ONE as i128);
    proof {
        crate::fixed::lemma_div_trunc_bound((v1 * dt) as int, ONE as int);
    }
    let x1: i128 = pos + dx;
    let keep: i128 = ONE as i128 - s.friction as i128;
    assert(abs(v1 * keep) <= (MAX_PARTICLES * LIMIT * LIMIT + LIMIT) * ONE) by (nonlinear_arith)
        requires
            abs(v1 as int) <= MAX_PARTICLES * LIMIT * LIMIT + LIMIT,
            0 <= keep <= ONE,
    ;
    let v2: i128 = div_trunc_i128(v1 * keep, ONE as i128);
    proof {
        crate::fixed::lemma_div_trunc_bound((v1 * keep) as int, ONE as int);
        assert(abs(v2 as int) <= (MAX_PARTICLES * LIMIT * LIMIT + LIMIT) * ONE);
    }
    if !(x1 >= size || x1 < 0) {
        (x1, v2)
    } else if s.wrap {
        let d: i128 = x1 - size;
        let folded: i128 = if d < 0 {
            -d
        } else {
            d
        };
        (folded, v2)
    } else {
        assert(abs(v2 as int) <= 0x1_0000_0000_0000_0000_0000_0000_0000);
        let t: i128 = 3 * v2;
        let b: i128 = -t;
        (x1, div_trunc_i128(b, 2))
    }
}

/// Particle `i` after one tick, or `None` when it would leave the range.
pub fn step_particle(
    ps: &Vec<Particle>,
    i: usize,
    m: &AttractionMatrix,
    s: &SimParams,
    dt: i64,
) -> (r: Option<Particle>)
    requires
        m.wf(),
        s.wf(),
        population_ok(ps@, *m),
        i < ps.len(),
        0 <= dt <= MAX_DT,
    ensures
        r.is_some() <==> motion_fits(stepped(ps@, i as int, *m, *s, dt as int)),
        r matches Some(p) ==> p.ptype == ps@[i as int].ptype && motion_of(p) == stepped(
            ps@,
            i as int,
            *m,
            *s,
            dt as int,
        ),
{
    let f = sum_forces(ps, i, m, s);
    let p = &ps[i];
    let (x, vx) = step_axis(p.x, p.vx, f.0, s.width, s, dt);
    let (y, vy) = step_axis(p.y, p.vy, f.1, s.height, s, dt);
    let lim: i128 = LIMIT as i128;
    if x < -lim || x > lim || y < -lim || y > lim || vx < -lim || vx > lim || vy < -lim || vy
        > lim {
        return None;
    }
    Some(Particle { x: x as i64, y: y as i64, vx: vx as i64, vy: vy as i64, ptype: p.ptype })
}

/// Advances every particle by one tick, scanning the pairs in index order.
///
/// Each particle's new state is computed from the state at the start of the
/// tick. When some particle would leave the fixed-point range the tick is
/// refused and nothing changes.
pub fn tick(
    ps: &mut Vec<Particle>,
    m: &AttractionMatrix,
    s: &SimParams,
    dt: i64,
) -> (r: Result<(), TickError>)
    requires
        m.wf(),
        s.wf(),
        population_ok(old(ps)@, *m),
        0 <= dt <= MAX_DT,
    ensures
        r is Ok <==> tick_fits(old(ps)@, *m, *s, dt as int),
        r is Ok ==> advanced(old(ps)@, final(ps)@, *m, *s, dt as int),
        r is Err ==> final(ps)@ == old(ps)@,
        population_ok(final(ps)@, *m),
{
    let n = ps.len();
    let mut next: Vec<Particle> = Vec::new();
    let mut i: usize = 0;
    while i < n
        invariant
            m.wf(),
            s.wf(),
            population_ok(ps@, *m),
            n == ps.len(),
            0 <= dt <= MAX_DT,
            i <= n,
            next.len() == i,
            forall|k: int|
                0 <= k < i ==> (#[trigger] next@[k]).ptype == ps@[k].ptype && motion_of(next@[k])
                    == stepped(ps@, k, *m, *s, dt as int),
            forall|k: int| 0 <= k < i ==> motion_fits(#[trigger] stepped(ps@, k, *m, *s, dt as int)),
        decreases n - i,
    {
        match step_particle(ps, i, m, s, dt) {
            Some(p) => {
                next.push(p);
            },
            None => {
                assert(!motion_fits(stepped(ps@, i as int, *m, *s, dt as int)));
                return Err(TickError::OutOfRange);
            },
        }
        i = i + 1;
    }
    assert forall|k: int| 0 <= k < next.len() implies (#[trigger] next@[k]).in_range() by {
        assert(motion_fits(stepped(ps@, k, *m, *s, dt as int)));
    }
    *ps = next;
    Ok(())
}

/// In a wrapping world a position exactly at the far edge folds to zero,
/// and one that lies in the world or overshot its far edge by less than
/// the world's size ends inside the world.
pub proof fn lemma_wrap_fold_stays_inside(pos: int, size: int)
    requires
        size > 0,
        0 <= pos < 2 * size,
    ensures
        0 <= wrap_axis(pos, size) < size,
        pos == size ==> wrap_axis(pos, size) == 0,
{
}

/// A tick has one result: any two populations that both advance the same
/// population by one tick are equal. So the sequential executor and the
/// batch executor, which both ensure `advanced`, agree.
pub proof fn lemma_advanced_is_unique(
    prev: Seq<Particle>,
    a: Seq<Particle>,
    b: Seq<Particle>,
    m: AttractionMatrix,
    s: SimParams,
    dt: int,
)
    requires
        advanced(prev, a, m, s, dt),
        advanced(prev, b, m, s, dt),
    ensures
        a == b,
{
    assert forall|i: int| 0 <= i < a.len() implies a[i] == b[i] by {
        assert(motion_of(a[i]) == motion_of(b[i]));
    }
    assert(a =~= b);
}

/// How a particle moves through a tick when it feels no force: its own
/// velocity carries it, friction decays the velocity, the boundary applies.
pub open spec fn drift(p: Particle, s: SimParams, dt: int) -> Motion {
    let (x, vx) = axis_step(p.x as int, p.vx as int, 0, s.width as int, s, dt);
    let (y, vy) = axis_step(p.y as int, p.vy as int, 0, s.height as int, s, dt);
    Motion { x, y, vx, vy }
}

/// When no other particle exerts a force on particle `i`, the forces it
/// feels sum to zero.
pub proof fn lemma_forceless_net_force(
    ps: Seq<Particle>,
    i: int,
    m: AttractionMatrix,
    s: SimParams,
    n: int,
)
    requires
        0 <= i < ps.len(),
        0 <= n <= ps.len(),
        forall|j: int|
            0 <= j < ps.len() && j != i ==> pair_force(
                ps[i],
                #[trigger] ps[j],
                m.coef(ps[i].ptype as int, ps[j].ptype as int),
                s,
            ) == (0int, 0int),
    ensures
        net_force(ps, i, m, s, n) == (0int, 0int),
    decreases n,
{
    if n > 0 {
        lemma_forceless_net_force(ps, i, m, s, n - 1);
        if n - 1 != i {
            assert(pair_force(
                ps[i],
                ps[n - 1],
                m.coef(ps[i].ptype as int, ps[n - 1].ptype as int),
                s,
            ) == (0int, 0int));
        }
    }
}

/// When the coefficient of particle `i` towards every other particle is zero
/// and every other particle is farther than `min_r`, a tick only lets
/// particle `i` drift, whatever the distances.
pub proof fn lemma_zero_coefficients_only_drift(
    ps: Seq<Particle>,
    i: int,
    m: AttractionMatrix,
    s: SimParams,
    dt: int,
)
    requires
        s.wf(),
        0 <= i < ps.len(),
        forall|j: int|
            0 <= j < ps.len() && j != i ==> m.coef(ps[i].ptype as int, (#[trigger] ps[j]).ptype as int)
                == 0 && distance(ps[i], ps[j], s) > s.min_r,
    ensures
        stepped(ps, i, m, s, dt) == drift(ps[i], s, dt),
{
    assert forall|j: int| 0 <= j < ps.len() && j != i implies pair_force(
        ps[i],
        #[trigger] ps[j],
        m.coef(ps[i].ptype as int, ps[j].ptype as int),
        s,
    ) == (0int, 0int) by {
        crate::force::lemma_zero_coefficient_exerts_no_force(ps[i], ps[j], s);
    }
    lemma_forceless_net_force(ps, i, m, s, ps.len() as int);
}

/// When every other particle lies exactly at `min_r` or exactly at `max_r`
/// from particle `i`, a tick only lets particle `i` drift, whatever the
/// coefficients.
pub proof fn lemma_pairs_at_ends_only_drift(
    ps: Seq<Particle>,
    i: int,
    m: AttractionMatrix,
    s: SimParams,
    dt: int,
)
    requires
        s.wf(),
        0 <= i < ps.len(),
        forall|j: int|
            0 <= j < ps.len() && j != i ==> distance(ps[i], #[trigger] ps[j], s) == s.min_r
                || distance(ps[i], ps[j], s) == s.max_r,
    ensures
        stepped(ps, i, m, s, dt) == drift(ps[i], s, dt),
{
    assert forall|j: int| 0 <= j < ps.len() && j != i implies pair_force(
        ps[i],
        #[trigger] ps[j],
        m.coef(ps[i].ptype as int, ps[j].ptype as int),
        s,
    ) == (0int, 0int) by {
        crate::force::lemma_pair_force_vanishes_at_ends(
            ps[i],
            ps[j],
            m.coef(ps[i].ptype as int, ps[j].ptype as int),
            s,
        );
    }
    lemma_forceless_net_force(ps, i, m, s, ps.len() as int);
}

/// In a population of two, each particle feels exactly the force of the other.
pub proof fn lemma_net_force_of_pair(ps: Seq<Particle>, m: AttractionMatrix, s: SimParams)
    requires
        ps.len() == 2,
    ensures
        net_force(ps, 0, m, s, 2) == pair_force(
            ps[0],
            ps[1],
            m.coef(ps[0].ptype as int, ps[1].ptype as int),
            s,
        ),
        net_force(ps, 1, m, s, 2) == pair_force(
            ps[1],
            ps[0],
            m.coef(ps[1].ptype as int, ps[0].ptype as int),
            s,
        ),
{
    assert(net_force(ps, 0, m, s, 0) == (0int, 0int));
    assert(net_force(ps, 0, m, s, 1) == (0int, 0int));
    assert(net_force(ps, 1, m, s, 0) == (0int, 0int));
    let f = pair_force(ps[1], ps[0], m.coef(ps[1].ptype as int, ps[0].ptype as int), s);
    assert(net_force(ps, 1, m, s, 1) == (0 + f.0, 0 + f.1));
}

/// In a population of two at the midpoint of `min_r` and `max_r`, the first
/// particle's velocity changes by the full coefficient along the line to the
/// second: the force it feels is `g` times the unit direction.
pub proof fn lemma_midpoint_pair_force(ps: Seq<Particle>, m: AttractionMatrix, s: SimParams)
    requires
        s.wf(),
        ps.len() == 2,
        s.min_r < s.max_r,
        2 * distance(ps[0], ps[1], s) == s.min_r + s.max_r,
        distance(ps[0], ps[1], s) >= crate::force::MIN_DIST,
    ensures
        ({
            let g = m.coef(ps[0].ptype as int, ps[1].ptype as int);
            let (dx, dy) = separation(ps[0], ps[1], s);
            let dist = distance(ps[0], ps[1], s);
            net_force(ps, 0, m, s, 2) == (div_trunc(g * dx, dist), div_trunc(g * dy, dist))
        }),
{
    lemma_net_force_of_pair(ps, m, s);
    crate::force::lemma_pair_force_at_midpoint(
        ps[0],
        ps[1],
        m.coef(ps[0].ptype as int, ps[1].ptype as int),
        s,
    );
}

/// In a wrapping world, a position that lands on the far edge after a tick
/// folds to zero, and one that lands in the world or past its far edge by
/// less than the world's size ends inside the world.
pub proof fn lemma_wrap_step_stays_inside(
    pos: int,
    vel: int,
    force: int,
    size: int,
    s: SimParams,
    dt: int,
)
    requires
        s.wrap,
        size > 0,
        ({
            let v1 = vel + div_trunc(force * s.speed, ONE as int);
            let x1 = pos + div_trunc(v1 * dt, ONE as int);
            0 <= x1 < 2 * size
        }),
    ensures
        0 <= axis_step(pos, vel, force, size, s, dt).0 < size,
        ({
            let v1 = vel + div_trunc(force * s.speed, ONE as int);
            let x1 = pos + div_trunc(v1 * dt, ONE as int);
            x1 == size ==> axis_step(pos, vel, force, size, s, dt).0 == 0
        }),
{
}

} // verus!
