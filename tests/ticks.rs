use particle_life::buffers::{create_particles, ParticlesBuffer};
use particle_life::fixed::{LIMIT, ONE};
use particle_life::matrix::AttractionMatrix;
use particle_life::particle::{Particle, SimParams};
use particle_life::tick::{tick, TickError, MAX_DT};

fn world(min_r: i64, max_r: i64, wrap: bool) -> SimParams {
    SimParams { min_r, max_r, friction: 0, speed: ONE, wrap, width: 100 * ONE, height: 100 * ONE }
}

fn moving(x: i64, y: i64, vx: i64, vy: i64) -> Particle {
    Particle { x, y, vx, vy, ptype: 0 }
}

#[test]
fn two_types_attract_each_other_across_the_diagonal() {
    let mut m = AttractionMatrix::new(2);
    m.set(0, 1, ONE);
    m.set(1, 0, ONE);
    let p = world(ONE, 10 * ONE, false);
    let a = Particle::new(0, 40 * ONE, 50 * ONE);
    let b = Particle::new(1, 45 * ONE, 50 * ONE);
    let mut ps = vec![a, b];
    assert_eq!(tick(&mut ps, &m, &p, ONE / 100), Ok(()));
    // At distance 5 the kernel is 8/9 of the coefficient.
    assert_eq!(ps[0].vx, 888_888);
    assert_eq!(ps[1].vx, -888_888);
    assert_eq!(ps[0].vy, 0);
    assert_eq!(ps[1].vy, 0);
    assert_eq!(ps[0].x, 40 * ONE + 8_888);
    assert_eq!(ps[1].x, 45 * ONE - 8_888);
    assert_eq!(ps[0].ptype, 0);
    assert_eq!(ps[1].ptype, 1);
}

#[test]
fn lone_particle_feels_nothing_from_itself() {
    let mut m = AttractionMatrix::new(1);
    m.set(0, 0, ONE);
    let p = world(ONE, 10 * ONE, false);
    let mut ps = vec![Particle::new(0, 40 * ONE, 50 * ONE)];
    assert_eq!(tick(&mut ps, &m, &p, ONE), Ok(()));
    assert_eq!(ps[0], Particle::new(0, 40 * ONE, 50 * ONE));
}

#[test]
fn midpoint_pair_gets_unit_velocity_along_the_line() {
    let mut m = AttractionMatrix::new(1);
    m.set(0, 0, ONE);
    let p = world(ONE, 2 * ONE, false);
    let mut ps = vec![Particle::new(0, 10 * ONE, 10 * ONE), Particle::new(0, 11_500_000, 10 * ONE)];
    assert_eq!(tick(&mut ps, &m, &p, 0), Ok(()));
    assert_eq!((ps[0].vx, ps[0].vy), (ONE, 0));
    assert_eq!((ps[1].vx, ps[1].vy), (-ONE, 0));
    assert_eq!(ps[0].x, 10 * ONE);
    assert_eq!(ps[1].x, 11_500_000);
}

#[test]
fn wrap_folds_the_far_edge_to_zero() {
    let m = AttractionMatrix::new(1);
    let p = world(ONE, 2 * ONE, true);
    let mut ps = vec![moving(99 * ONE, 50 * ONE, ONE, 0)];
    assert_eq!(tick(&mut ps, &m, &p, ONE), Ok(()));
    assert_eq!(ps[0].x, 0);
    assert_eq!(ps[0].vx, ONE);
}

#[test]
fn wrap_overshoot_within_one_world_folds_inside() {
    let m = AttractionMatrix::new(1);
    let p = world(ONE, 2 * ONE, true);
    let mut ps = vec![moving(99 * ONE, 50 * ONE, 30 * ONE, 0)];
    assert_eq!(tick(&mut ps, &m, &p, ONE), Ok(()));
    assert_eq!(ps[0].x, 29 * ONE);
}

#[test]
fn bounce_reverses_and_amplifies() {
    let m = AttractionMatrix::new(1);
    let p = world(ONE, 2 * ONE, false);
    let mut ps = vec![moving(99 * ONE, 50 * ONE, 2 * ONE, 0)];
    assert_eq!(tick(&mut ps, &m, &p, ONE), Ok(()));
    assert_eq!(ps[0].x, 101 * ONE);
    assert_eq!(ps[0].vx, -3 * ONE);
}

#[test]
fn friction_decays_once_per_tick() {
    let m = AttractionMatrix::new(1);
    let mut p = world(ONE, 2 * ONE, false);
    p.friction = 250_000;
    let mut ps = vec![moving(10 * ONE, 10 * ONE, 4 * ONE, -2 * ONE)];
    assert_eq!(tick(&mut ps, &m, &p, ONE / 2), Ok(()));
    assert_eq!(ps[0].x, 12 * ONE);
    assert_eq!(ps[0].y, 9 * ONE);
    assert_eq!(ps[0].vx, 3 * ONE);
    assert_eq!(ps[0].vy, -1_500_000);
}

#[test]
fn out_of_range_tick_is_refused_and_changes_nothing() {
    let m = AttractionMatrix::new(1);
    let p = world(ONE, 2 * ONE, false);
    let before = vec![moving(LIMIT, 0, LIMIT, 0)];
    let mut ps = before.clone();
    assert_eq!(tick(&mut ps, &m, &p, MAX_DT), Err(TickError::OutOfRange));
    assert_eq!(ps, before);
}

#[test]
fn batch_and_sequential_agree() {
    let mut m = AttractionMatrix::new(3);
    m.set(0, 1, 400_000);
    m.set(1, 2, -700_000);
    m.set(2, 0, ONE);
    m.set(1, 1, 200_000);
    let mut p = world(2 * ONE, 20 * ONE, true);
    p.friction = 100_000;
    let ps = create_particles(3, 50, 100 * ONE, 100 * ONE);
    let mut seq = ps.clone();
    assert_eq!(tick(&mut seq, &m, &p, ONE / 60), Ok(()));
    let mut buf = ParticlesBuffer::new(1, 0, ONE, 100 * ONE, 100 * ONE);
    buf.storage = ps.clone();
    assert_eq!(buf.dispatch(&m, &p, ONE / 60), Ok(()));
    assert_eq!(buf.storage, seq);
    assert_ne!(seq, ps);
    // The renderer's snapshot changes only when copied.
    assert_ne!(buf.staging, buf.storage);
    buf.copy_to_staging();
    assert_eq!(buf.staging, buf.storage);
}

#[test]
fn batch_refusal_keeps_storage() {
    let m = AttractionMatrix::new(1);
    let p = world(ONE, 2 * ONE, false);
    let mut buf = ParticlesBuffer::new(1, 0, ONE, 100 * ONE, 100 * ONE);
    let start = vec![moving(0, 0, 0, 0), moving(LIMIT, 0, LIMIT, 0)];
    buf.storage = start.clone();
    assert_eq!(buf.dispatch(&m, &p, MAX_DT), Err(TickError::OutOfRange));
    assert_eq!(buf.storage, start);
}

#[test]
fn created_particles_are_grouped_at_rest_inside_the_world() {
    let ps = create_particles(4, 25, 3 * ONE, 2 * ONE);
    assert_eq!(ps.len(), 100);
    for (k, q) in ps.iter().enumerate() {
        assert_eq!(q.ptype as usize, k / 25);
        assert!(0 <= q.x && q.x < 3 * ONE);
        assert!(0 <= q.y && q.y < 2 * ONE);
        assert_eq!((q.vx, q.vy), (0, 0));
    }
    let xs: std::collections::BTreeSet<i64> = ps.iter().map(|q| q.x).collect();
    assert!(xs.len() > 1);
}

#[test]
fn empty_population_is_empty() {
    assert!(create_particles(3, 0, ONE, ONE).is_empty());
    assert!(create_particles(0, 500, ONE, ONE).is_empty());
}

#[test]
fn one_type_may_fill_the_whole_capacity() {
    let ps = create_particles(1, 16384, ONE, ONE);
    assert_eq!(ps.len(), 16384);
    assert!(ps.iter().all(|q| q.ptype == 0));
    let buf = ParticlesBuffer::new(0, 7, ONE, ONE, ONE);
    assert!(buf.storage.is_empty());
}
