use starsim::bodies::{step_bodies, Trail};
use starsim::fx::{fx_cos, fx_mul, FX_ONE};
use starsim::sim::{SpawnMode, Simulation};
use starsim::solar_system::{create_solar_system, generate_orbit_lines, ORBIT_SEGMENTS};
use starsim::types::{CelestialBody, ParticleKind, SimParams, MAX_PARTICLES, TRAIL_LENGTH};
use starsim::vec3::{v3_len, V3};

fn fresh_sim() -> Simulation {
    Simulation::new(create_solar_system())
}

#[test]
fn solar_system_shape() {
    let bodies = create_solar_system();
    assert_eq!(bodies.len(), 9);
    assert!(bodies[0].is_star);
    assert_eq!(bodies[0].mass, FX_ONE);
    for (i, b) in bodies.iter().enumerate() {
        assert!(b.mass > 0);
        assert_eq!(b.is_star, i == 0);
    }
    // Earth sits one unit out and moves at close to two pi per year
    let earth = &bodies[3];
    assert_eq!(earth.pos, V3::new(FX_ONE, 0, 0));
    assert_eq!(earth.vel.x, 0);
    assert_eq!(earth.vel.y, 0);
    assert!((earth.vel.z - 6_283_185_307).abs() < 100);
    assert_eq!(earth.vel.z, earth.orbital_speed);
}

#[test]
fn orbit_lines_sweep_each_planet_distance() {
    let bodies = create_solar_system();
    let lines = generate_orbit_lines(&bodies);
    assert_eq!(lines.len(), 8 * (ORBIT_SEGMENTS + 1));
    // the first vertex of the first ring lies on the x axis at Mercury's
    // distance from the origin
    let dist = v3_len(bodies[1].pos);
    let (v0, c0) = lines[0];
    assert_eq!(v0, V3::new(fx_mul(dist, fx_cos(0)), 0, 0));
    assert!((v0.x - dist).abs() < dist / 1000);
    assert_eq!(c0.a, 250_000_000);
    assert_eq!(c0.r, bodies[1].color.r * 3 / 10);
}

#[test]
fn spawn_orbital_swarm_raises_alive_count_by_exactly_count() {
    let mut sim = fresh_sim();
    assert_eq!(sim.count_alive(), 0);
    sim.spawn_orbital_swarm(3, 300, 100_000_000);
    assert_eq!(sim.count_alive(), 300);
    assert_eq!(sim.num_alive_particles, 300);
    for i in 0..300 {
        let p = sim.particles[i];
        assert!(p.alive);
        assert_eq!(p.kind, ParticleKind::Swarm);
        // the ring sits around Earth at one unit: x within 1 +- (0.1 + 0.02)
        assert!((p.pos.x - FX_ONE).abs() <= 120_000_001);
        assert!(p.pos.y.abs() <= 10_000_000);
        assert_eq!(p.vel.y, 0);
    }
    assert!(!sim.particles[300].alive);
}

#[test]
fn spawn_orbital_swarm_with_bad_index_is_a_no_op() {
    let mut sim = fresh_sim();
    sim.spawn_orbital_swarm(9, 300, 100_000_000);
    assert_eq!(sim.count_alive(), 0);
    sim.spawn_orbital_swarm(usize::MAX, 300, 100_000_000);
    assert_eq!(sim.count_alive(), 0);
}

#[test]
fn clear_all_keeps_positions_and_velocities() {
    let mut sim = fresh_sim();
    sim.spawn_burst(V3::new(FX_ONE, 0, 0), 50);
    assert_eq!(sim.count_alive(), 50);
    let before: Vec<_> = (0..50).map(|i| sim.particles[i]).collect();
    sim.clear_particles();
    assert_eq!(sim.count_alive(), 0);
    assert_eq!(sim.num_alive_particles, 0);
    for i in 0..50 {
        let p = sim.particles[i];
        assert!(!p.alive);
        // only the alive flag changed
        assert_eq!(p.pos, before[i].pos);
        assert_eq!(p.vel, before[i].vel);
        assert_eq!(p.color, before[i].color);
        assert_eq!(p.kind, before[i].kind);
    }
}

#[test]
fn spawning_beyond_capacity_saturates_and_preserves_data() {
    let mut sim = fresh_sim();
    // a sentinel particle in the first slot
    sim.spawn_mode = SpawnMode::Free;
    sim.spawn_particle(V3::new(7, 8, 9), V3::new(1, 2, 3));
    let sentinel = sim.particles[0];
    assert!(sentinel.alive);
    // flood past the pool's capacity
    sim.spawn_burst(V3::new(0, FX_ONE, 0), MAX_PARTICLES + 1000);
    assert_eq!(sim.count_alive(), MAX_PARTICLES as u32);
    assert_eq!(sim.num_alive_particles, 65536);
    // the saturated pool dropped the overflow without touching earlier slots
    assert_eq!(sim.particles[0], sentinel);
    // and further spawns change nothing
    sim.spawn_particle(V3::new(0, 0, 0), V3::new(0, 0, 0));
    assert_eq!(sim.count_alive(), MAX_PARTICLES as u32);
}

#[test]
fn spawn_modes_pick_kind_mass_and_radius() {
    let mut sim = fresh_sim();
    sim.spawn_mode = SpawnMode::Swarm;
    sim.spawn_particle(V3::new(0, 0, 0), V3::new(0, 0, 0));
    sim.spawn_mode = SpawnMode::Free;
    sim.spawn_particle(V3::new(0, 0, 0), V3::new(0, 0, 0));
    sim.spawn_mode = SpawnMode::Burst;
    sim.spawn_particle(V3::new(0, 0, 0), V3::new(0, 0, 0));
    assert_eq!(sim.particles[0].kind, ParticleKind::Swarm);
    assert_eq!(sim.particles[0].mass, 100_000_000);
    assert_eq!(sim.particles[1].kind, ParticleKind::Free);
    assert_eq!(sim.particles[1].mass, 100_000_000);
    assert_eq!(sim.particles[1].radius, 6_000_000);
    // a burst spawn is a free particle with a smaller radius
    assert_eq!(sim.particles[2].kind, ParticleKind::Free);
    assert_eq!(sim.particles[2].mass, 50_000_000);
    assert_eq!(sim.particles[2].radius, 3_000_000);
    assert!(sim.particles[2].radius < sim.particles[1].radius);
}

#[test]
fn spawn_swarm_restores_the_ambient_mode() {
    let mut sim = fresh_sim();
    sim.spawn_mode = SpawnMode::Burst;
    sim.spawn_swarm(V3::new(0, 0, 0), 10);
    assert_eq!(sim.spawn_mode, SpawnMode::Burst);
    assert_eq!(sim.count_alive(), 10);
    for i in 0..10 {
        assert_eq!(sim.particles[i].kind, ParticleKind::Swarm);
    }
}

#[test]
fn paused_clock_freezes_effective_time() {
    let mut sim = fresh_sim();
    sim.paused = true;
    sim.update_params(16_000_000);
    assert_eq!(sim.params.dt, 0);
    assert_eq!(sim.time, 0);
    sim.paused = false;
    sim.update_params(16_000_000);
    assert_eq!(sim.params.dt, 16_000_000);
    assert_eq!(sim.time, 16_000_000);
    assert_eq!(sim.params.time, 16_000_000);
}

#[test]
fn time_scale_scales_the_step_and_clamps() {
    let mut sim = fresh_sim();
    sim.time_scale_up();
    // 1.0 * 1.5
    sim.update_params(10_000_000);
    assert_eq!(sim.params.dt, 15_000_000);
    for _ in 0..20 {
        sim.time_scale_up();
    }
    sim.update_params(10_000_000);
    assert_eq!(sim.params.dt, 100_000_000);  // capped at ten
    for _ in 0..40 {
        sim.time_scale_down();
    }
    sim.update_params(10_000_000);
    assert_eq!(sim.params.dt, 1_000_000);  // floored at a tenth
}

#[test]
fn tuning_keys_raise_the_weights() {
    let mut sim = fresh_sim();
    let w0 = sim.params.separation_weight;
    sim.tune_separation();
    assert_eq!(sim.params.separation_weight, w0 + 200_000_000);
    let a0 = sim.params.alignment_weight;
    sim.tune_alignment();
    assert_eq!(sim.params.alignment_weight, a0 + 200_000_000);
    let c0 = sim.params.cohesion_weight;
    sim.tune_cohesion();
    assert_eq!(sim.params.cohesion_weight, c0 + 200_000_000);
    for _ in 0..30 {
        sim.tune_swarm_gravity();
    }
    // capped at two
    assert_eq!(sim.params.swarm_gravity_weight, 2_000_000_000);
}

#[test]
fn target_setting_mirrors_into_params() {
    let mut sim = fresh_sim();
    assert!(!sim.params.target_active);
    sim.set_target(V3::new(1, 2, 3));
    assert!(sim.params.target_active);
    assert_eq!(sim.params.target, V3::new(1, 2, 3));
    assert_eq!(sim.target_pos, Some(V3::new(1, 2, 3)));
    sim.clear_target();
    assert!(!sim.params.target_active);
    assert_eq!(sim.target_pos, None);
    // the stale point stays, only the flag dropped
    assert_eq!(sim.params.target, V3::new(1, 2, 3));
}

#[test]
fn a_frame_flips_generations_and_keeps_the_census() {
    let mut sim = fresh_sim();
    sim.spawn_swarm(V3::new(FX_ONE, 0, 200_000_000), 40);
    let bodies_before = sim.bodies.clone();
    let gen_before = sim.generation;
    sim.step(16_000_000);
    assert_eq!(sim.generation, gen_before + 1);
    assert_eq!(sim.num_alive_particles, 40);
    assert_eq!(sim.count_alive(), 40);
    // the back generation now holds the previous front
    assert_eq!(sim.bodies_back.len(), bodies_before.len());
    for i in 0..bodies_before.len() {
        assert_eq!(sim.bodies_back[i].pos, bodies_before[i].pos);
    }
    // planets moved, the census and kinds survived
    assert_ne!(sim.bodies[3].pos, bodies_before[3].pos);
    for i in 0..40 {
        assert!(sim.particles[i].alive);
        assert_eq!(sim.particles[i].kind, ParticleKind::Swarm);
    }
    assert!(!sim.particles[40].alive);
}

#[test]
fn paused_step_leaves_bodies_and_trails_alone() {
    let mut sim = fresh_sim();
    let bodies_before = sim.bodies.clone();
    let head_before = sim.trails[0].head;
    sim.paused = true;
    sim.step(16_000_000);
    for i in 0..bodies_before.len() {
        assert_eq!(sim.bodies[i].pos, bodies_before[i].pos);
        assert_eq!(sim.bodies[i].vel, bodies_before[i].vel);
    }
    assert_eq!(sim.trails[0].head, head_before);
}

#[test]
fn trails_record_one_sample_per_live_step() {
    let mut sim = fresh_sim();
    assert_eq!(sim.trails.len(), 9);
    assert_eq!(sim.trails[3].samples.len(), TRAIL_LENGTH);
    assert_eq!(sim.trails[3].head, 0);
    sim.step(16_000_000);
    assert_eq!(sim.trails[3].head, 1);
    // the recorded sample is the freshly advanced position
    assert_eq!(sim.trails[3].samples[0], sim.bodies[3].pos);
    sim.step(16_000_000);
    assert_eq!(sim.trails[3].head, 2);
}

#[test]
fn trail_head_wraps_at_the_ring_length() {
    let mut trail = Trail::new(V3::new(1, 2, 3));
    for _ in 0..TRAIL_LENGTH - 1 {
        trail.record(V3::new(4, 5, 6));
    }
    assert_eq!(trail.head, TRAIL_LENGTH - 1);
    trail.record(V3::new(7, 8, 9));
    assert_eq!(trail.head, 0);
    assert_eq!(trail.samples[TRAIL_LENGTH - 1], V3::new(7, 8, 9));
}

/// Total momentum of the bodies, in raw fixed-point products.
fn momentum(bodies: &[CelestialBody]) -> (i128, i128, i128) {
    let mut px: i128 = 0;
    let mut py: i128 = 0;
    let mut pz: i128 = 0;
    for b in bodies {
        px += b.mass as i128 * b.vel.x as i128;
        py += b.mass as i128 * b.vel.y as i128;
        pz += b.mass as i128 * b.vel.z as i128;
    }
    (px, py, pz)
}

#[test]
fn total_momentum_stays_bounded_over_thousands_of_steps() {
    let mut front = create_solar_system();
    let mut back = front.clone();
    let mut params = SimParams::default();
    params.num_bodies = front.len() as u32;
    params.dt = 16_000_000;
    assert_eq!(params.damping, FX_ONE);
    // |p| of the initial dataset: the planets all orbit the same way, so the
    // starting momentum is the natural yardstick
    let (px0, _, pz0) = momentum(&front);
    let scale0 = px0.abs() + pz0.abs();
    assert!(scale0 > 0);
    for _ in 0..4000 {
        step_bodies(&front, &mut back, &params);
        std::mem::swap(&mut front, &mut back);
    }
    let (px, py, pz) = momentum(&front);
    // bounded: after four thousand steps the total never grows past a small
    // multiple of the starting momentum
    assert!(px.abs() < 4 * scale0);
    assert!(py.abs() < 4 * scale0);
    assert!(pz.abs() < 4 * scale0);
}

#[test]
fn circular_orbit_keeps_its_radius_for_a_revolution() {
    let mut front = create_solar_system();
    let mut back = front.clone();
    let mut params = SimParams::default();
    params.num_bodies = front.len() as u32;
    // a fine step: one thousandth of a year
    params.dt = 1_000_000;
    // Earth: radius 1, speed 2 pi, period one year = 1000 steps
    for _ in 0..1000 {
        step_bodies(&front, &mut back, &params);
        std::mem::swap(&mut front, &mut back);
    }
    let earth = &front[3];
    let sun = &front[0];
    let dx = earth.pos.x - sun.pos.x;
    let dy = earth.pos.y - sun.pos.y;
    let dz = earth.pos.z - sun.pos.z;
    let r = v3_len(V3::new(dx, dy, dz));
    // the orbital radius stays within five percent of one unit
    assert!((r - FX_ONE).abs() < FX_ONE / 20, "radius drifted to {}", r);
}
