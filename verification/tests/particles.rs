use starsim::fx::FX_ONE;
use starsim::particles::step_particles;
use starsim::solar_system::create_solar_system;
use starsim::types::{Particle, SimParams, MAX_PARTICLES};
use starsim::vec3::{v3_len, V3};

fn params_for(bodies: u32) -> SimParams {
    let mut p = SimParams::default();
    p.num_bodies = bodies;
    p.num_particles = MAX_PARTICLES as u32;
    p
}

#[test]
fn gravity_pulls_a_free_particle_toward_the_sun() {
    let bodies = create_solar_system();
    let src = vec![Particle::new_free(V3::new(2 * FX_ONE, 0, 0), V3::new(0, 0, 0), 100_000_000)];
    let mut dst = src.clone();
    let params = params_for(9);
    step_particles(&src, &bodies, &mut dst, &params);
    let p = dst[0];
    assert!(p.alive);
    // the sun sits at the origin: acceleration points along negative x
    assert!(p.vel.x < 0);
    assert_eq!(p.vel.y, 0);
    assert!(p.pos.x < 2 * FX_ONE);
}

#[test]
fn dead_slots_pass_through_untouched() {
    let bodies = create_solar_system();
    let mut corpse = Particle::new_free(V3::new(FX_ONE, 2, 3), V3::new(4, 5, 6), 100_000_000);
    corpse.alive = false;
    let src = vec![corpse];
    let mut dst = vec![Particle::dead()];
    let params = params_for(9);
    step_particles(&src, &bodies, &mut dst, &params);
    assert_eq!(dst[0], corpse);
}

#[test]
fn speed_is_clamped_to_max_speed() {
    let bodies = create_solar_system();
    let fast = Particle::new_free(
        V3::new(10 * FX_ONE, 0, 0),
        V3::new(100 * FX_ONE, 0, 0),
        100_000_000,
    );
    let src = vec![fast];
    let mut dst = src.clone();
    let params = params_for(9);
    step_particles(&src, &bodies, &mut dst, &params);
    let speed = v3_len(dst[0].vel);
    assert!(speed <= params.max_speed);
}

#[test]
fn damping_bleeds_velocity() {
    let bodies = create_solar_system();
    // far from every body, gravity is negligible next to the damping
    let drifting = Particle::new_free(
        V3::new(1000 * FX_ONE, 1000 * FX_ONE, 0),
        V3::new(FX_ONE, 0, 0),
        100_000_000,
    );
    let src = vec![drifting];
    let mut dst = src.clone();
    let mut params = params_for(9);
    params.damping = FX_ONE / 2;
    step_particles(&src, &bodies, &mut dst, &params);
    assert!((dst[0].vel.x - FX_ONE / 2).abs() < 1_000);
}

#[test]
fn cohesion_draws_swarm_neighbors_together() {
    let bodies = create_solar_system();
    // two swarm particles a third of a unit apart, far off in y to keep the
    // sun's pull symmetric; inside the cohesion radius, outside separation
    let a = Particle::new_swarm(
        V3::new(100 * FX_ONE, 100 * FX_ONE, 0),
        V3::new(0, 0, 0),
        100_000_000,
    );
    let b = Particle::new_swarm(
        V3::new(100 * FX_ONE + 300_000_000, 100 * FX_ONE, 0),
        V3::new(0, 0, 0),
        100_000_000,
    );
    let src = vec![a, b];
    let mut dst = src.clone();
    let params = params_for(9);
    step_particles(&src, &bodies, &mut dst, &params);
    // each accelerates along x toward the other
    assert!(dst[0].vel.x > src[0].vel.x);
    assert!(dst[1].vel.x < src[1].vel.x);
}

#[test]
fn separation_pushes_close_swarm_neighbors_apart() {
    let bodies = create_solar_system();
    // two swarm particles five hundredths apart: inside separation radius
    let a = Particle::new_swarm(
        V3::new(100 * FX_ONE, 100 * FX_ONE, 0),
        V3::new(0, 0, 0),
        100_000_000,
    );
    let b = Particle::new_swarm(
        V3::new(100 * FX_ONE + 50_000_000, 100 * FX_ONE, 0),
        V3::new(0, 0, 0),
        100_000_000,
    );
    let src = vec![a, b];
    let mut dst = src.clone();
    let params = params_for(9);
    step_particles(&src, &bodies, &mut dst, &params);
    // repulsion beats cohesion at close range with the default weights
    assert!(dst[0].vel.x < src[0].vel.x);
    assert!(dst[1].vel.x > src[1].vel.x);
}

#[test]
fn an_active_target_pulls_swarm_particles() {
    let bodies = create_solar_system();
    let lone = Particle::new_swarm(
        V3::new(100 * FX_ONE, 100 * FX_ONE, 0),
        V3::new(0, 0, 0),
        100_000_000,
    );
    let src = vec![lone];
    let mut dst = src.clone();
    let mut params = params_for(9);
    params.target = V3::new(100 * FX_ONE, 100 * FX_ONE, 50 * FX_ONE);
    params.target_active = true;
    step_particles(&src, &bodies, &mut dst, &params);
    // the target lies along positive z
    assert!(dst[0].vel.z > 0);

    // and a free particle in the same spot ignores the target
    let free = vec![Particle::new_free(
        V3::new(100 * FX_ONE, 100 * FX_ONE, 0),
        V3::new(0, 0, 0),
        100_000_000,
    )];
    let mut dst2 = free.clone();
    step_particles(&free, &bodies, &mut dst2, &params);
    assert_eq!(dst2[0].vel.z, 0);
}
