use particle_life::fixed::ONE;
use particle_life::force::{force_between, kernel_magnitude};
use particle_life::particle::{Particle, SimParams};

fn params(min_r: i64, max_r: i64, wrap: bool) -> SimParams {
    SimParams { min_r, max_r, friction: 0, speed: ONE, wrap, width: 100 * ONE, height: 100 * ONE }
}

#[test]
fn zero_coefficient_gives_no_force_beyond_min_r() {
    let p = params(ONE, 10 * ONE, false);
    let a = Particle::new(0, 50 * ONE, 50 * ONE);
    for d in [ONE + 1, 2 * ONE, 5 * ONE + 500_000, 9 * ONE, 10 * ONE] {
        let b = Particle::new(0, 50 * ONE + d, 50 * ONE);
        assert_eq!(force_between(&a, &b, 0, &p), (0, 0));
    }
}

#[test]
fn zero_coefficient_still_repels_inside_min_r() {
    let p = params(ONE, 10 * ONE, false);
    let a = Particle::new(0, 50 * ONE, 50 * ONE);
    let b = Particle::new(0, 50 * ONE + ONE / 2, 50 * ONE);
    let (fx, fy) = force_between(&a, &b, 0, &p);
    assert!(fx < 0);
    assert_eq!(fy, 0);
}

#[test]
fn kernel_equals_coefficient_at_midpoint() {
    assert_eq!(kernel_magnitude(ONE, 1_500_000, ONE, 2 * ONE), ONE);
    assert_eq!(kernel_magnitude(-ONE, 1_500_000, ONE, 2 * ONE), -ONE);
    assert_eq!(kernel_magnitude(300_000, 5_500_000, ONE, 10 * ONE), 300_000);
}

#[test]
fn kernel_vanishes_at_both_ends() {
    for g in [-ONE, -1, 0, 1, 700_000, ONE] {
        assert_eq!(kernel_magnitude(g, ONE, ONE, 10 * ONE), 0);
        assert_eq!(kernel_magnitude(g, 10 * ONE, ONE, 10 * ONE), 0);
        assert_eq!(kernel_magnitude(g, 3 * ONE, 3 * ONE, 3 * ONE), 0);
    }
}

#[test]
fn kernel_triangle_values() {
    // A quarter of the way from min_r to max_r: half the coefficient.
    assert_eq!(kernel_magnitude(ONE, 1_250_000, ONE, 2 * ONE), 500_000);
    // 8/9 of the coefficient, truncated toward zero.
    assert_eq!(kernel_magnitude(ONE, 5 * ONE, ONE, 10 * ONE), 888_888);
    assert_eq!(kernel_magnitude(-ONE, 5 * ONE, ONE, 10 * ONE), -888_888);
}

#[test]
fn repulsion_formula_values() {
    // r_smooth * min_r * (1/(min_r + r_smooth) - 1/(d + r_smooth)), with
    // min_r = 2, r_smooth = 2, d = 0: 4 * (1/4 - 1/2) = -1.
    assert_eq!(kernel_magnitude(ONE, 0, 2 * ONE, 4 * ONE), -ONE);
    // d = 1: 4 * (1/4 - 1/3) = -1/3.
    assert_eq!(kernel_magnitude(-ONE, ONE, 2 * ONE, 4 * ONE), -333_333);
}

#[test]
fn force_points_along_the_line() {
    let p = params(ONE, 2 * ONE, false);
    let a = Particle::new(0, 10 * ONE, 10 * ONE);
    // A 3-4-5 triangle scaled to a distance of 1.5.
    let b = Particle::new(0, 10 * ONE + 900_000, 10 * ONE + 1_200_000);
    assert_eq!(force_between(&a, &b, ONE, &p), (600_000, 800_000));
}

#[test]
fn overlapping_pair_and_far_pair_give_nothing() {
    let p = params(ONE, 2 * ONE, false);
    let a = Particle::new(0, 10 * ONE, 10 * ONE);
    assert_eq!(force_between(&a, &a, ONE, &p), (0, 0));
    let far = Particle::new(0, 10 * ONE + 2 * ONE + 1, 10 * ONE);
    assert_eq!(force_between(&a, &far, ONE, &p), (0, 0));
}

#[test]
fn wrapped_offset_takes_the_short_way() {
    let p = params(ONE, 10 * ONE, true);
    let a = Particle::new(0, ONE, 50 * ONE);
    let b = Particle::new(0, 96 * ONE, 50 * ONE);
    // Across the edge the pair is 5 apart, with b to the left of a.
    let (fx, fy) = force_between(&a, &b, ONE, &p);
    assert_eq!(fx, -888_888);
    assert_eq!(fy, 0);
    let q = params(ONE, 10 * ONE, false);
    assert_eq!(force_between(&a, &b, ONE, &q), (0, 0));
}

#[test]
fn near_zero_pairs_are_skipped() {
    let p = params(ONE, 2 * ONE, false);
    let a = Particle::new(0, 10 * ONE, 10 * ONE);
    // 0.05 apart: the squared distance is below 0.01.
    let b = Particle::new(0, 10 * ONE + 50_000, 10 * ONE);
    assert_eq!(force_between(&a, &b, 0, &p), (0, 0));
    assert_eq!(force_between(&a, &b, ONE, &p), (0, 0));
    // 0.1 apart: exactly at the guard, so the repulsion applies.
    let c = Particle::new(0, 10 * ONE + 100_000, 10 * ONE);
    assert!(force_between(&a, &c, 0, &p).0 < 0);
}
