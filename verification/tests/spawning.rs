use callisto::fixed::{HALF, ONE};
use callisto::simulation::{
    Simulation, DEFAULT_ATTRACTIVE_FORCE, DEFAULT_DRAG, DEFAULT_DT, DEFAULT_PARTICLES,
    DEFAULT_REPULSIVE_FORCE, DEFAULT_SPAWN_VELOCITY, DOMAIN_MODE, MOUSE_STATE,
};
use callisto::spawn::{SPAWN_RADIUS_MAX, SPAWN_RADIUS_MIN, SPAWN_SHIFT};
use callisto::vector::Vec2;

fn compass(n: usize) -> Vec<Vec2> {
    let mut directions = Vec::new();
    for i in 0..n {
        let theta = (i as f64) * std::f64::consts::TAU / (n as f64);
        directions.push(Vec2::new(
            (theta.cos() * 1e18).round() as i128,
            (theta.sin() * 1e18).round() as i128,
        ));
    }
    directions
}

#[test]
fn spawn_constants_have_their_values() {
    assert_eq!(SPAWN_RADIUS_MIN, 6 * ONE / 10);
    assert_eq!(SPAWN_RADIUS_MAX, 7 * ONE / 10);
    assert_eq!(SPAWN_SHIFT, (ONE - SPAWN_RADIUS_MAX) / 2);
    assert_eq!(DEFAULT_PARTICLES, 200);
    assert_eq!(DEFAULT_DT, ONE / 100_000);
    assert_eq!(DEFAULT_ATTRACTIVE_FORCE, ONE / 1_000);
    assert_eq!(DEFAULT_REPULSIVE_FORCE, 2 * ONE / 1_000_000);
    assert_eq!(DEFAULT_DRAG, HALF);
    assert_eq!(DEFAULT_SPAWN_VELOCITY, 10 * ONE);
}

#[test]
fn remap_takes_the_unit_interval_to_itself() {
    assert_eq!(Simulation::remap_trig(-ONE), 0);
    assert_eq!(Simulation::remap_trig(0), HALF);
    assert_eq!(Simulation::remap_trig(ONE), ONE);
    assert_eq!(Simulation::remap_trig(HALF), 750_000_000_000_000_000);
}

#[test]
fn spawn_coord_scales_and_shifts() {
    // ((1 + 1) / 2) * 0.6 + 0.15 and ((0 + 1) / 2) * 0.6 + 0.15
    assert_eq!(
        Simulation::spawn_coord(&Vec2::new(ONE, 0), SPAWN_RADIUS_MIN),
        Vec2::new(750_000_000_000_000_000, 450_000_000_000_000_000)
    );
    assert_eq!(
        Simulation::spawn_coord(&Vec2::new(-ONE, -ONE), 650_000_000_000_000_000),
        Vec2::new(SPAWN_SHIFT, SPAWN_SHIFT)
    );
    assert_eq!(
        Simulation::spawn_coord(&Vec2::new(0, ONE), SPAWN_RADIUS_MAX - 1),
        Vec2::new(499_999_999_999_999_999, 849_999_999_999_999_999)
    );
}

#[test]
fn rand_coord_draws_a_radius_from_the_spawn_range() {
    let mut rng = rand::thread_rng();
    let east = Vec2::new(ONE, 0);
    let mut seen = Vec::new();
    for _ in 0..200 {
        let p = Simulation::rand_coord(&mut rng, &east);
        // along this direction x is the radius plus the shift
        let r = p.x - SPAWN_SHIFT;
        assert!(SPAWN_RADIUS_MIN <= r && r < SPAWN_RADIUS_MAX);
        assert_eq!(p, Simulation::spawn_coord(&east, r));
        seen.push(r);
    }
    assert!(seen.iter().any(|r| *r != seen[0]));
    assert!(seen.iter().any(|r| *r != SPAWN_RADIUS_MIN));
}

#[test]
fn new_spawns_one_particle_per_direction() {
    let directions = compass(64);
    let sim = Simulation::new(
        DEFAULT_DT,
        DEFAULT_ATTRACTIVE_FORCE,
        DEFAULT_REPULSIVE_FORCE,
        HALF,
        3 * ONE,
        &directions,
        2,
        true,
        DOMAIN_MODE::WRAP,
        42,
    );
    assert_eq!(sim.particles.len(), 64);
    for p in sim.particles.iter() {
        assert!(SPAWN_SHIFT <= p.position.x && p.position.x <= ONE - SPAWN_SHIFT);
        assert!(SPAWN_SHIFT <= p.position.y && p.position.y <= ONE - SPAWN_SHIFT);
        assert!(-3 * ONE <= p.velocity.x && p.velocity.x < 3 * ONE);
        assert!(-3 * ONE <= p.velocity.y && p.velocity.y < 3 * ONE);
        assert_eq!(p.acceleration, Vec2::new(0, 0));
        assert_eq!(p.new_acceleration, Vec2::new(0, 0));
        assert_eq!(p.domain_wrap, DOMAIN_MODE::WRAP);
    }
    let first = sim.particles[0].velocity;
    assert!(sim.particles.iter().any(|p| p.velocity != first));
    assert!(sim.particles.iter().any(|p| p.velocity.x != -3 * ONE));
    assert!(sim.particles.iter().any(|p| p.velocity.x != 3 * ONE));
    assert_eq!(sim.t_start, 42);
    assert_eq!(sim.t, 0);
    assert_eq!(sim.dt, DEFAULT_DT);
    assert_eq!(sim.attractive_force, DEFAULT_ATTRACTIVE_FORCE);
    assert_eq!(sim.repulsive_force, DEFAULT_REPULSIVE_FORCE);
    assert_eq!(sim.drag, HALF);
    assert_eq!(sim.microsteps, 2);
    assert!(sim.gravity);
    assert_eq!(sim.mouse_position, Vec2::new(0, 0));
    assert_eq!(sim.mouse_state, MOUSE_STATE::ATTRACTIVE);
    assert!(!sim.mouse_active);
}

#[test]
fn new_places_each_particle_in_its_direction() {
    let directions = vec![Vec2::new(ONE, 0), Vec2::new(0, -ONE)];
    let sim = Simulation::new(
        DEFAULT_DT,
        0,
        0,
        0,
        ONE,
        &directions,
        1,
        false,
        DOMAIN_MODE::WALL,
        0,
    );
    let east = sim.particles[0].position;
    let r = east.x - SPAWN_SHIFT;
    assert!(SPAWN_RADIUS_MIN <= r && r < SPAWN_RADIUS_MAX);
    assert_eq!(east, Simulation::spawn_coord(&directions[0], r));
    let south = sim.particles[1].position;
    assert_eq!(south.y, SPAWN_SHIFT);
    let half_r = south.x - SPAWN_SHIFT;
    assert!(SPAWN_RADIUS_MIN / 2 <= half_r && half_r < SPAWN_RADIUS_MAX / 2);
}

#[test]
fn rand_velocity_stays_under_the_bound() {
    let mut rng = rand::thread_rng();
    let mut seen = Vec::new();
    for _ in 0..200 {
        let v = Simulation::rand_velocity(&mut rng, 2 * ONE);
        assert!(-2 * ONE <= v.x && v.x < 2 * ONE);
        assert!(-2 * ONE <= v.y && v.y < 2 * ONE);
        seen.push(v);
    }
    assert!(seen.iter().any(|v| v.x != seen[0].x));
    assert!(seen.iter().any(|v| v.x != v.y));
    assert!(seen.iter().any(|v| v.x < 0));
    assert!(seen.iter().any(|v| v.x > 0));
}

#[test]
fn empty_velocity_range_gives_particles_at_rest() {
    let mut rng = rand::thread_rng();
    assert_eq!(Simulation::rand_velocity(&mut rng, 0), Vec2::new(0, 0));
    assert_eq!(Simulation::rand_velocity(&mut rng, -ONE), Vec2::new(0, 0));
    assert_eq!(Simulation::rand_velocity(&mut rng, i128::MIN), Vec2::new(0, 0));
    let sim = Simulation::new(
        DEFAULT_DT,
        0,
        0,
        0,
        0,
        &compass(8),
        1,
        false,
        DOMAIN_MODE::INFINITE,
        0,
    );
    assert_eq!(sim.particles.len(), 8);
    for p in sim.particles.iter() {
        assert_eq!(p.velocity, Vec2::new(0, 0));
        assert!(SPAWN_SHIFT <= p.position.x && p.position.x <= ONE - SPAWN_SHIFT);
    }
}

#[test]
fn no_directions_give_an_empty_ensemble() {
    let mut sim = Simulation::new(
        DEFAULT_DT,
        DEFAULT_ATTRACTIVE_FORCE,
        DEFAULT_REPULSIVE_FORCE,
        HALF,
        0,
        &Vec::new(),
        1,
        false,
        DOMAIN_MODE::WALL,
        0,
    );
    assert_eq!(sim.particles.len(), 0);
    sim.step(10);
    assert_eq!(sim.particles.len(), 0);
    assert_eq!(sim.pack().len(), 0);
}

#[test]
fn default_ensemble_has_the_default_parameters() {
    let sim = Simulation::default(&compass(DEFAULT_PARTICLES), 7);
    assert_eq!(sim.particles.len(), 200);
    assert_eq!(sim.dt, DEFAULT_DT);
    assert_eq!(sim.attractive_force, DEFAULT_ATTRACTIVE_FORCE);
    assert_eq!(sim.repulsive_force, DEFAULT_REPULSIVE_FORCE);
    assert_eq!(sim.drag, DEFAULT_DRAG);
    assert_eq!(sim.microsteps, 1);
    assert!(!sim.gravity);
    assert_eq!(sim.t_start, 7);
    assert_eq!(sim.t, 0);
    assert!(!sim.mouse_active);
    for p in sim.particles.iter() {
        assert_eq!(p.domain_wrap, DOMAIN_MODE::WALL);
        assert!(-DEFAULT_SPAWN_VELOCITY <= p.velocity.x && p.velocity.x < DEFAULT_SPAWN_VELOCITY);
        assert!(-DEFAULT_SPAWN_VELOCITY <= p.velocity.y && p.velocity.y < DEFAULT_SPAWN_VELOCITY);
        assert!(SPAWN_SHIFT <= p.position.x && p.position.x <= ONE - SPAWN_SHIFT);
        assert!(SPAWN_SHIFT <= p.position.y && p.position.y <= ONE - SPAWN_SHIFT);
    }
}
