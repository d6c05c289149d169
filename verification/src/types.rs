//! Flat simulation records: particles, celestial bodies and the shared
//! parameter set.
//!
//! Every field is a plain fixed-point scalar, vector, flag or count, so the
//! records can be handed unchanged to an upload collaborator and can stand
//! directly in specifications.

use vstd::prelude::*;

use crate::fx::FX_ONE;
use crate::vec3::V3;

verus! {

/// Capacity of the particle pool; it never grows or shrinks.
pub const MAX_PARTICLES: usize = 65536;

/// Greatest number of celestial bodies a simulation holds.
pub const MAX_BODIES: usize = 32;

/// Samples in each body's orbit-trail ring buffer.
pub const TRAIL_LENGTH: usize = 512;

/// An RGBA color with fixed-point channels in `[0, FX_ONE]`.
#[derive(Clone, Copy, Debug, PartialEq, Eq, Structural)]
pub struct Color {
    pub r: i64,
    pub g: i64,
    pub b: i64,
    pub a: i64,
}

/// How a particle responds to its surroundings: free particles feel only
/// gravity, swarm particles also follow the flocking rules and the target.
#[derive(Clone, Copy, Debug, PartialEq, Eq, Structural)]
pub enum ParticleKind {
    Free,
    Swarm,
}

/// One slot of the particle pool. A slot with `alive == false` takes part in
/// nothing; its remaining fields keep whatever values they last held.
#[derive(Clone, Copy, Debug, PartialEq, Eq, Structural)]
pub struct Particle {
    pub pos: V3,
    pub vel: V3,
    pub mass: i64,
    pub kind: ParticleKind,
    pub radius: i64,
    pub color: Color,
    pub alive: bool,
}

/// The particle a swarm spawn produces.
pub open spec fn swarm_particle_s(pos: V3, vel: V3, mass: int) -> Particle {
    Particle {
        pos,
        vel,
        mass: mass as i64,
        kind: ParticleKind::Swarm,
        radius: 8_000_000,
        color: Color { r: 400_000_000, g: 700_000_000, b: 1_000_000_000, a: 900_000_000 },
        alive: true,
    }
}

/// The particle a free spawn produces.
pub open spec fn free_particle_s(pos: V3, vel: V3, mass: int) -> Particle {
    Particle {
        pos,
        vel,
        mass: mass as i64,
        kind: ParticleKind::Free,
        radius: 6_000_000,
        color: Color { r: 1_000_000_000, g: 800_000_000, b: 300_000_000, a: 800_000_000 },
        alive: true,
    }
}

/// The particle a burst spawn produces: of the free kind, with a smaller
/// radius.
pub open spec fn burst_particle_s(pos: V3, vel: V3, mass: int) -> Particle {
    Particle {
        pos,
        vel,
        mass: mass as i64,
        kind: ParticleKind::Free,
        radius: 3_000_000,
        color: Color { r: 1_000_000_000, g: 800_000_000, b: 300_000_000, a: 800_000_000 },
        alive: true,
    }
}

/// The all-zero dead particle that fills the pool at start.
pub open spec fn dead_particle_s() -> Particle {
    Particle {
        pos: V3 { x: 0, y: 0, z: 0 },
        vel: V3 { x: 0, y: 0, z: 0 },
        mass: 0,
        kind: ParticleKind::Free,
        radius: 0,
        color: Color { r: 0, g: 0, b: 0, a: 0 },
        alive: false,
    }
}

impl Particle {
    /// A live swarm particle at `pos` with velocity `vel`.
    pub fn new_swarm(pos: V3, vel: V3, mass: i64) -> (r: Particle)
        ensures
            r == swarm_particle_s(pos, vel, mass as int),
    {
        Particle {
            pos,
            vel,
            mass,
            kind: ParticleKind::Swarm,
            radius: 8_000_000,
            color: Color { r: 400_000_000, g: 700_000_000, b: 1_000_000_000, a: 900_000_000 },
            alive: true,
        }
    }

    /// A live free particle at `pos` with velocity `vel`.
    pub fn new_free(pos: V3, vel: V3, mass: i64) -> (r: Particle)
        ensures
            r == free_particle_s(pos, vel, mass as int),
    {
        Particle {
            pos,
            vel,
            mass,
            kind: ParticleKind::Free,
            radius: 6_000_000,
            color: Color { r: 1_000_000_000, g: 800_000_000, b: 300_000_000, a: 800_000_000 },
            alive: true,
        }
    }

    /// A live burst particle at `pos` with velocity `vel`: free-kind
    /// behavior with a smaller radius.
    pub fn new_burst(pos: V3, vel: V3, mass: i64) -> (r: Particle)
        ensures
            r == burst_particle_s(pos, vel, mass as int),
    {
        Particle {
            pos,
            vel,
            mass,
            kind: ParticleKind::Free,
            radius: 3_000_000,
            color: Color { r: 1_000_000_000, g: 800_000_000, b: 300_000_000, a: 800_000_000 },
            alive: true,
        }
    }

    /// The dead placeholder the pool starts from.
    pub fn dead() -> (r: Particle)
        ensures
            r == dead_particle_s(),
    {
        Particle {
            pos: V3 { x: 0, y: 0, z: 0 },
            vel: V3 { x: 0, y: 0, z: 0 },
            mass: 0,
            kind: ParticleKind::Free,
            radius: 0,
            color: Color { r: 0, g: 0, b: 0, a: 0 },
            alive: false,
        }
    }
}

/// A celestial body. Position is in astronomical units, mass in solar
/// masses, velocity in astronomical units per year — all fixed point.
/// The radius is for display only and has no physical meaning.
#[derive(Clone, Copy, Debug, PartialEq, Eq, Structural)]
pub struct CelestialBody {
    pub pos: V3,
    pub vel: V3,
    pub mass: i64,
    pub radius: i64,
    pub color: Color,
    pub is_star: bool,
    pub orbital_speed: i64,
}

/// Global tunables and clock state read by both integrators.
#[derive(Clone, Copy, Debug, PartialEq, Eq, Structural)]
pub struct SimParams {
    /// Effective time step of the running frame (0 while paused).
    pub dt: i64,
    /// Gravitational constant, four pi squared in these units.
    pub gravitational_constant: i64,
    pub num_particles: u32,
    pub num_bodies: u32,
    pub separation_radius: i64,
    pub alignment_radius: i64,
    pub cohesion_radius: i64,
    pub separation_weight: i64,
    pub alignment_weight: i64,
    pub cohesion_weight: i64,
    pub max_speed: i64,
    pub max_force: i64,
    /// Point swarm particles seek while `target_active` holds.
    pub target: V3,
    pub target_active: bool,
    /// Softening length added (squared) to every gravity distance.
    pub softening: i64,
    /// Velocity kept per step: `FX_ONE` keeps all of it.
    pub damping: i64,
    /// Weight of the seek force toward the target.
    pub swarm_gravity_weight: i64,
    /// Accumulated simulation time.
    pub time: i64,
}

/// The parameter set a simulation starts from.
pub open spec fn default_params_s() -> SimParams {
    SimParams {
        dt: 16_000_000,
        gravitational_constant: 39_478_417_600,
        num_particles: 0,
        num_bodies: 0,
        separation_radius: 100_000_000,
        alignment_radius: 300_000_000,
        cohesion_radius: 500_000_000,
        separation_weight: 1_800_000_000,
        alignment_weight: 1_000_000_000,
        cohesion_weight: 1_200_000_000,
        max_speed: 10_000_000_000,
        max_force: 5_000_000_000,
        target: V3 { x: 0, y: 0, z: 0 },
        target_active: false,
        softening: 10_000_000,
        damping: FX_ONE,
        swarm_gravity_weight: 300_000_000,
        time: 0,
    }
}

impl Default for SimParams {
    /// The starting tunables: a 0.016-year step, G of four pi squared,
    /// full velocity retention and moderate flocking weights.
    fn default() -> (r: SimParams)
        ensures
            r == default_params_s(),
    {
        SimParams {
            dt: 16_000_000,
            gravitational_constant: 39_478_417_600,
            num_particles: 0,
            num_bodies: 0,
            separation_radius: 100_000_000,
            alignment_radius: 300_000_000,
            cohesion_radius: 500_000_000,
            separation_weight: 1_800_000_000,
            alignment_weight: 1_000_000_000,
            cohesion_weight: 1_200_000_000,
            max_speed: 10_000_000_000,
            max_force: 5_000_000_000,
            target: V3 { x: 0, y: 0, z: 0 },
            target_active: false,
            softening: 10_000_000,
            damping: FX_ONE,
            swarm_gravity_weight: 300_000_000,
            time: 0,
        }
    }
}

} // verus!
