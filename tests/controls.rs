use particle_life::buffers::ParticlesBuffer;
use particle_life::config::{ConfigError, UISettings, UIVisibility, MAX_PARTICLE_SIZE, MIN_PARTICLE_SIZE};
use particle_life::fixed::{LIMIT, ONE};
use particle_life::geometry::create_hexagon_data;
use particle_life::matrix::MAX_TYPES;
use particle_life::pipeline::{run_frame, FramePlan, ParticleLifeNode, ReadinessState};
use particle_life::settings::prepare_settings_buffer;
use particle_life::tick::MAX_PER_TYPE;

#[test]
fn default_settings() {
    let s = UISettings::default();
    assert_eq!(s.num_particle_types, 1);
    assert_eq!(s.num_particles_per_type, 128);
    assert_eq!(s.attraction_table.get(0, 0), 0);
    assert_eq!((s.min_r, s.max_r, s.friction, s.speed), (300_000, 300_000, 100_000, ONE));
    assert!(s.wrap);
    assert!(!s.running);
}

#[test]
fn add_and_remove_types_resize_the_matrix() {
    let mut s = UISettings::default();
    s.set_attraction(0, 0, 500_000);
    assert!(s.add_type());
    assert_eq!(s.num_particle_types, 2);
    assert!(s.particle_count_changed);
    assert_eq!(s.attraction_table.get(0, 0), 500_000);
    assert_eq!(s.attraction_table.get(1, 1), 0);
    s.set_attraction(1, 0, -ONE);
    s.begin_frame();
    assert!(!s.particle_count_changed);
    assert!(s.remove_type());
    assert_eq!(s.num_particle_types, 1);
    assert!(s.particle_count_changed);
    assert!(s.add_type());
    assert_eq!(s.attraction_table.get(1, 0), 0);
}

#[test]
fn type_count_stays_within_bounds() {
    let mut s = UISettings::default();
    s.begin_frame();
    assert!(!s.remove_type());
    assert_eq!(s.num_particle_types, 1);
    assert!(!s.particle_count_changed);
    while s.add_type() {}
    assert_eq!(s.num_particle_types as usize, MAX_TYPES);
    s.begin_frame();
    assert!(!s.add_type());
    assert!(!s.particle_count_changed);
}

#[test]
fn too_many_particles_per_type_is_refused() {
    let mut s = UISettings::default();
    s.begin_frame();
    assert_eq!(s.set_particles_per_type(MAX_PER_TYPE as u32 + 1), Err(ConfigError::TooManyParticles));
    assert_eq!(s.num_particles_per_type, 128);
    assert!(!s.particle_count_changed);
    assert_eq!(s.set_particles_per_type(128), Ok(()));
    assert!(!s.particle_count_changed);
    assert_eq!(s.set_particles_per_type(MAX_PER_TYPE as u32), Ok(()));
    assert!(s.particle_count_changed);
}

#[test]
fn radii_stay_ordered() {
    let mut s = UISettings::default();
    s.set_min_r(900_000);
    assert_eq!(s.min_r, 300_000);
    s.set_max_r(2 * ONE);
    assert_eq!(s.max_r, ONE);
    s.set_min_r(-5);
    assert_eq!(s.min_r, 0);
    s.set_min_r(400_000);
    assert_eq!(s.min_r, 400_000);
    s.set_max_r(100_000);
    assert_eq!(s.max_r, 400_000);
}

#[test]
fn clamped_scalar_edits() {
    let mut s = UISettings::default();
    s.set_friction(2 * ONE);
    assert_eq!(s.friction, ONE);
    s.set_friction(-1);
    assert_eq!(s.friction, 0);
    s.set_speed(i64::MAX);
    assert_eq!(s.speed, LIMIT);
    s.set_speed(-3 * ONE);
    assert_eq!(s.speed, -3 * ONE);
    s.set_wrap(false);
    assert!(!s.wrap);
    s.set_attraction(0, 0, 9 * ONE);
    assert_eq!(s.attraction_table.get(0, 0), ONE);
}

#[test]
fn particle_size_change_is_flagged_and_clamped() {
    let mut s = UISettings::default();
    s.set_particle_size(ONE);
    assert!(!s.particle_size_changed);
    s.set_particle_size(0);
    assert_eq!(s.particle_size, MIN_PARTICLE_SIZE);
    assert!(s.particle_size_changed);
    s.set_particle_size(i64::MAX);
    assert_eq!(s.particle_size, MAX_PARTICLE_SIZE);
}

#[test]
fn run_pause_and_reset_flags() {
    let mut s = UISettings::default();
    s.toggle_running();
    assert!(s.running && s.just_started);
    s.begin_frame();
    s.toggle_running();
    assert!(!s.running && !s.just_started);
    s.request_reset();
    assert!(s.just_reset);
    s.begin_frame();
    assert!(!s.just_reset);
}

#[test]
fn visibility_toggles() {
    assert_eq!(UIVisibility::default(), UIVisibility::Visible);
    assert_eq!(UIVisibility::Visible.toggled(), UIVisibility::Hidden);
    assert_eq!(UIVisibility::Hidden.toggled(), UIVisibility::Visible);
}

#[test]
fn readiness_transitions() {
    let mut n = ParticleLifeNode::default();
    assert_eq!(n.state, ReadinessState::Compiling);
    n.update(false, true);
    assert_eq!(n.state, ReadinessState::Compiling);
    n.update(true, true);
    assert_eq!(n.state, ReadinessState::Idle);
    n.update(true, false);
    assert_eq!(n.state, ReadinessState::Idle);
    n.update(false, true);
    assert_eq!(n.state, ReadinessState::Running);
    n.update(true, true);
    assert_eq!(n.state, ReadinessState::Running);
    n.update(true, false);
    assert_eq!(n.state, ReadinessState::Idle);
}

#[test]
fn frame_plans() {
    let mut n = ParticleLifeNode::default();
    assert_eq!(n.run(), FramePlan { dispatch: false, copy_snapshot: true, draw: false });
    n.state = ReadinessState::Idle;
    assert_eq!(n.run(), FramePlan { dispatch: false, copy_snapshot: true, draw: true });
    n.state = ReadinessState::Running;
    assert_eq!(n.run(), FramePlan { dispatch: true, copy_snapshot: true, draw: true });
}

#[test]
fn frames_regenerate_tick_and_refresh_the_snapshot() {
    let mut s = UISettings::default();
    s.set_max_r(ONE);
    s.set_attraction(0, 0, ONE);
    let (w, h) = (1_777_777, ONE);
    let mut buf = ParticlesBuffer::new(1, 128, s.particle_size, w, h);
    let mut node = ParticleLifeNode::default();
    s.add_type();
    let (plan, r) = run_frame(&mut buf, &mut node, &s, false, w, h, ONE / 60);
    assert_eq!(plan.dispatch, false);
    assert_eq!(r, Ok(()));
    assert_eq!(buf.storage.len(), 256);
    assert_eq!(buf.staging, buf.storage);
    s.begin_frame();
    let idle = buf.storage.clone();
    let (plan, _) = run_frame(&mut buf, &mut node, &s, true, w, h, ONE / 60);
    assert!(!plan.dispatch && plan.draw);
    assert_eq!(buf.storage, idle);
    s.toggle_running();
    let (plan, r) = run_frame(&mut buf, &mut node, &s, true, w, h, ONE / 60);
    assert!(plan.dispatch);
    assert_eq!(r, Ok(()));
    assert_ne!(buf.storage, idle);
    assert_eq!(buf.staging, buf.storage);
}

#[test]
fn frame_rebuilds_polygon_on_size_change() {
    let mut s = UISettings::default();
    let mut buf = ParticlesBuffer::new(1, 4, s.particle_size, ONE, ONE);
    let mut node = ParticleLifeNode::default();
    s.set_particle_size(50 * ONE);
    run_frame(&mut buf, &mut node, &s, false, ONE, ONE, 0);
    assert_eq!(buf.vertex_data, create_hexagon_data(50 * ONE).0);
}

#[test]
fn hexagon_corners_and_triangles() {
    let (v, i) = create_hexagon_data(100 * ONE);
    // Radius 1: half 0.5, apothem 0.5 * sqrt(3).
    assert_eq!(v, vec![-500_000, 866_025, 500_000, 866_025, ONE, 0, 500_000, -866_025, -500_000, -866_025, -ONE, 0]);
    assert_eq!(i, vec![0, 2, 1, 0, 3, 2, 0, 4, 3, 0, 5, 4]);
}

#[test]
fn uniform_from_settings() {
    let mut s = UISettings::default();
    s.add_type();
    s.set_friction(250_000);
    let u = prepare_settings_buffer(&s, 16_000, 5 * ONE);
    assert_eq!(u.n_types, 2);
    assert_eq!(u.n_particles, 256);
    assert_eq!(u.friction, 750_000);
    assert_eq!(u.wrap, 1);
    assert_eq!(u.inv_aspect_ratio, 1_777_777);
    assert_eq!((u.delta_time, u.time), (16_000, 5 * ONE));
    assert_eq!((u.min_r, u.max_r, u.speed), (300_000, 300_000, ONE));
}
