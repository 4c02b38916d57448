use particle_life::config::ConfigError;
use particle_life::fixed::{LIMIT, ONE};
use particle_life::universe::{SimulationSettings, Universe, UniverseParams};

fn universe() -> Universe {
    Universe::new(1280 * ONE, 720 * ONE)
}

#[test]
fn new_universe_is_empty_until_placed() {
    let mut u = universe();
    assert_eq!(u.particles().len(), 0);
    u.init_particle();
    assert_eq!(u.particles().len(), 100);
    assert!(u.particles().iter().all(|p| p.ptype == 0 && p.x < 1280 * ONE && p.y < 720 * ONE));
}

#[test]
fn init_places_a_fresh_population() {
    let mut u = universe();
    assert_eq!(u.init(UniverseParams::default()), Ok(()));
    // One type more than asked for.
    assert_eq!(u.n_types, 6);
    assert_eq!(u.particles().len(), 300);
    for (k, p) in u.particles().iter().enumerate() {
        assert_eq!(p.ptype as usize, k / 50);
        assert_eq!((p.vx, p.vy), (0, 0));
    }
    assert_eq!(u.params.max_r, 10 * ONE);
    assert_eq!(u.params.width, 1280 * ONE);
}

#[test]
fn init_refuses_bad_parameters() {
    let mut u = universe();
    let good = UniverseParams::default();
    let cases = [
        (UniverseParams { n_types: 16, ..good }, ConfigError::TooManyTypes),
        (UniverseParams { n_types: u32::MAX, ..good }, ConfigError::TooManyTypes),
        (UniverseParams { n_types: 15, particle_per_type: 1025, ..good }, ConfigError::TooManyParticles),
        (UniverseParams { min_r: 3 * ONE, max_r: 2 * ONE, ..good }, ConfigError::BadRadii),
        (UniverseParams { min_r: -1, ..good }, ConfigError::BadRadii),
        (UniverseParams { friction: ONE + 1, ..good }, ConfigError::BadFriction),
        (UniverseParams { speed: LIMIT + 1, ..good }, ConfigError::BadSpeed),
    ];
    for (p, e) in cases {
        assert_eq!(u.init(p), Err(e));
        assert_eq!(u.n_types, 1);
        assert_eq!(u.particle_per_type, 100);
    }
}

#[test]
fn universe_steps() {
    let mut u = universe();
    u.init(UniverseParams { n_types: 1, particle_per_type: 30, ..UniverseParams::default() }).unwrap();
    assert_eq!(u.n_types, 2);
    u.set_attraction(0, 1, ONE);
    u.set_attraction(1, 0, -ONE);
    let before = u.particles().clone();
    assert_eq!(u.step(ONE / 60), Ok(()));
    assert_eq!(u.particles().len(), before.len());
    u.randomize_attractions();
    assert_eq!(u.step(ONE / 60), Ok(()));
}

#[test]
fn settings_round_trip() {
    let mut u = universe();
    u.init(UniverseParams { n_types: 2, particle_per_type: 7, ..UniverseParams::default() }).unwrap();
    u.set_attraction(0, 2, 250_000);
    u.set_attraction(2, 1, -ONE);
    let saved = u.save_settings();
    assert_eq!(saved.attraction_matrix, vec![vec![0, 0, 250_000], vec![0, 0, 0], vec![0, -ONE, 0]]);
    let mut v = universe();
    assert_eq!(v.load_settings(&saved), Ok(()));
    assert_eq!(v.n_types, 3);
    assert_eq!(v.particle_per_type, 7);
    assert_eq!(v.particles().len(), 21);
    assert_eq!(v.matrix.get(0, 2), 250_000);
    assert_eq!(v.matrix.get(2, 1), -ONE);
    assert_eq!((v.params.min_r, v.params.max_r, v.params.friction), (ONE, 10 * ONE, 100_000));
    let again = v.save_settings();
    assert_eq!(again.attraction_matrix, saved.attraction_matrix);
}

fn saved(n: u32, rows: Vec<Vec<i64>>) -> SimulationSettings {
    SimulationSettings { n_types: n, particle_per_type: 4, attraction_matrix: rows, min_r: ONE, max_r: 2 * ONE, friction: 0 }
}

#[test]
fn load_refuses_bad_settings() {
    let mut u = universe();
    u.init_particle();
    let cases = [
        (saved(0, vec![]), ConfigError::NoTypes),
        (saved(17, vec![]), ConfigError::TooManyTypes),
        (SimulationSettings { particle_per_type: 20_000, ..saved(1, vec![vec![0]]) }, ConfigError::TooManyParticles),
        (SimulationSettings { particle_per_type: 8193, ..saved(2, vec![vec![0, 0], vec![0, 0]]) }, ConfigError::TooManyParticles),
        (SimulationSettings { min_r: 5 * ONE, ..saved(1, vec![vec![0]]) }, ConfigError::BadRadii),
        (SimulationSettings { friction: -1, ..saved(1, vec![vec![0]]) }, ConfigError::BadFriction),
        (saved(2, vec![vec![0, 0]]), ConfigError::BadMatrixShape),
        (saved(2, vec![vec![0, 0], vec![0]]), ConfigError::BadMatrixShape),
        (saved(2, vec![vec![0, 0], vec![0, ONE + 1]]), ConfigError::BadCoefficient),
    ];
    for (s, e) in cases {
        assert_eq!(u.load_settings(&s), Err(e));
        assert_eq!(u.n_types, 1);
        assert_eq!(u.particles().len(), 100);
    }
}

#[test]
fn zero_types_in_params_give_one_type() {
    let mut u = universe();
    assert_eq!(u.init(UniverseParams { n_types: 0, particle_per_type: 5000, ..UniverseParams::default() }), Ok(()));
    assert_eq!(u.n_types, 1);
    assert_eq!(u.particles().len(), 5000);
}
