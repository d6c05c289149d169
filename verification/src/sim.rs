//! The simulation orchestrator: owns the double-buffered generations of
//! bodies and particles, the parameter set, the clock, and the particle
//! pool's lifecycle (spawn, clear, census).
//!
//! Per frame it advances bodies, then particles against the freshly advanced
//! bodies, each pass reading one generation and writing the other, and then
//! makes the written generation current.

use vstd::prelude::*;

use crate::bodies::{bodies_next_s, step_bodies, Trail};
use crate::fx::{fx_add, fx_add_s, fx_clamp, fx_cos, fx_div, fx_from_int, fx_mul, fx_mul_s,
    fx_sin, fx_sqrt, FX_ONE, FX_TAU};
use crate::particles::{particles_next_s, step_particles};
use crate::rng::jitter;
use crate::types::{burst_particle_s, free_particle_s, CelestialBody, Particle, SimParams,
    MAX_BODIES, MAX_PARTICLES, swarm_particle_s};
use crate::vec3::{v3_add, v3_add_s, V3};

verus! {

/// What a plain spawn request produces: swarm particles, free particles, or
/// the smaller-radius burst variant of a free particle.
#[derive(Clone, Copy, Debug, PartialEq, Eq, Structural)]
pub enum SpawnMode {
    Swarm,
    Free,
    Burst,
}

/// The particle one spawn request creates in a given mode.
pub open spec fn spawned_particle_s(mode: SpawnMode, pos: V3, vel: V3) -> Particle {
    match mode {
        SpawnMode::Swarm => swarm_particle_s(pos, vel, 100_000_000),
        SpawnMode::Free => free_particle_s(pos, vel, 100_000_000),
        SpawnMode::Burst => burst_particle_s(pos, vel, 50_000_000),
    }
}

/// Componentwise bound on a jitter vector.
pub open spec fn within_s(v: V3, bx: int, by: int, bz: int) -> bool {
    &&& -bx <= v.x as int <= bx
    &&& -by <= v.y as int <= by
    &&& -bz <= v.z as int <= bz
}

/// What one burst spawn leaves in a slot: a particle of the ambient mode at
/// the center plus a small positional jitter, with a jittered velocity.
pub open spec fn burst_slot_s(slot: Particle, center: V3, mode: SpawnMode) -> bool {
    exists|off: V3, jv: V3|
        #![trigger spawned_particle_s(mode, v3_add_s(center, off), jv)]
        {
            &&& within_s(off, 100_000_000, 100_000_000, 100_000_000)
            &&& within_s(jv, 500_000_000, 500_000_000, 500_000_000)
            &&& slot == spawned_particle_s(mode, v3_add_s(center, off), jv)
        }
}

/// What one swarm-formation spawn leaves in a slot: a swarm particle with a
/// tighter, flatter positional jitter and a damped velocity jitter.
pub open spec fn swarm_slot_s(slot: Particle, center: V3) -> bool {
    exists|off: V3, jv: V3|
        #![trigger spawned_particle_s(SpawnMode::Swarm, v3_add_s(center, off), jv)]
        {
            &&& within_s(off, 150_000_000, 50_000_000, 150_000_000)
            &&& within_s(jv, 300_000_000, 150_000_000, 300_000_000)
            &&& slot == spawned_particle_s(SpawnMode::Swarm, v3_add_s(center, off), jv)
        }
}

/// The swarm particle the `idx`-th of `count` orbital spawns produces around
/// `body`: placed on a ring of radius `orbit_radius` (jittered by `jr`, lifted
/// by `jy`) at an evenly spaced angle (jittered by `ja`), moving tangentially
/// at three tenths of the circular-orbit speed `sqrt(g * mass / radius)`.
pub open spec fn orbital_particle_s(
    body: CelestialBody,
    g: int,
    idx: int,
    count: int,
    orbit_radius: int,
    ja: int,
    jr: int,
    jy: int,
) -> Particle {
    let frac = crate::fx::fx_div_s(crate::fx::fx_from_int_s(idx), crate::fx::fx_from_int_s(count));
    let angle = fx_add_s(fx_mul_s(frac, FX_TAU as int), ja);
    let ring = fx_add_s(orbit_radius, jr);
    let cosv = crate::fx::fx_cos_s(angle);
    let sinv = crate::fx::fx_sin_s(angle);
    let pos = v3_add_s(
        body.pos,
        V3 { x: fx_mul_s(ring, cosv) as i64, y: jy as i64, z: fx_mul_s(ring, sinv) as i64 },
    );
    let speed = fx_mul_s(
        crate::fx::fx_sqrt_s(crate::fx::fx_div_s(fx_mul_s(g, body.mass as int), ring)),
        300_000_000,
    );
    let vel = V3 { x: fx_mul_s(-sinv, speed) as i64, y: 0, z: fx_mul_s(cosv, speed) as i64 };
    swarm_particle_s(pos, vel, 100_000_000)
}

/// What the `idx`-th orbital spawn of a batch of `count` leaves in a slot,
/// for some jitters within their documented bounds.
pub open spec fn orbital_slot_s(
    slot: Particle,
    body: CelestialBody,
    g: int,
    idx: int,
    count: int,
    orbit_radius: int,
) -> bool {
    exists|ja: int, jr: int, jy: int|
        #![trigger orbital_particle_s(body, g, idx, count, orbit_radius, ja, jr, jy)]
        {
            &&& -100_000_000 <= ja <= 100_000_000
            &&& -20_000_000 <= jr <= 20_000_000
            &&& -10_000_000 <= jy <= 10_000_000
            &&& slot == orbital_particle_s(body, g, idx, count, orbit_radius, ja, jr, jy)
        }
}

/// The live slots are exactly the first `k` of the pool.
pub open spec fn alive_prefix_s(ps: Seq<Particle>, k: int) -> bool {
    forall|i: int| 0 <= i < ps.len() ==> ((#[trigger] ps[i]).alive <==> i < k)
}

/// How many slots of the pool are alive.
pub open spec fn alive_count_s(ps: Seq<Particle>) -> int
    decreases ps.len(),
{
    if ps.len() == 0 {
        0
    } else {
        alive_count_s(ps.drop_last()) + if ps.last().alive {
            1int
        } else {
            0int
        }
    }
}

/// When the live slots form a prefix of length `k`, the census finds `k`.
pub proof fn lemma_alive_prefix_count(ps: Seq<Particle>, k: int)
    requires
        0 <= k <= ps.len(),
        alive_prefix_s(ps, k),
    ensures
        alive_count_s(ps) == k,
    decreases ps.len(),
{
    if ps.len() > 0 {
        let head = ps.drop_last();
        if k == ps.len() {
            assert(alive_prefix_s(head, k - 1));
            lemma_alive_prefix_count(head, k - 1);
        } else {
            assert(!ps.last().alive);
            assert(alive_prefix_s(head, k));
            lemma_alive_prefix_count(head, k);
        }
    }
}

/// High-level simulation state.
pub struct Simulation {
    /// The tunables and clock both integrators read.
    pub params: SimParams,
    /// Current generation of the bodies: the one most recently written.
    pub bodies: Vec<CelestialBody>,
    /// Back generation of the bodies: what the next pass writes.
    pub bodies_back: Vec<CelestialBody>,
    /// Current generation of the particle pool.
    pub particles: Vec<Particle>,
    /// Back generation of the particle pool.
    pub particles_back: Vec<Particle>,
    /// Per-body ring of recent positions, display only.
    pub trails: Vec<Trail>,
    /// Steps taken; its parity names which upload slot is current.
    pub generation: u64,
    /// Census of the live slots, kept equal to the pool's true count.
    pub num_alive_particles: u32,
    /// Accumulated simulation time, mirrored into `params.time`.
    pub time: i64,
    /// While set, frames advance the clock by zero effective time.
    pub paused: bool,
    /// Multiplier from wall time to simulation time.
    pub time_scale: i64,
    /// The point swarm particles seek, mirrored into the parameter set.
    pub target_pos: Option<V3>,
    /// What the next plain spawn request produces.
    pub spawn_mode: SpawnMode,
}

impl Simulation {
    /// The state a simulation keeps between any two operations: generations
    /// of equal size within the fixed capacities, a census matching the pool
    /// (whose live slots form a prefix), one star at index zero, positive
    /// masses, full trails, and the target mirrored into the parameters.
    pub open spec fn wf(self) -> bool {
        &&& self.params.num_bodies as int == self.bodies@.len()
        &&& self.bodies_back@.len() == self.bodies@.len()
        &&& 1 <= self.bodies@.len() <= MAX_BODIES as int
        &&& self.params.num_particles as int == self.particles@.len()
        &&& self.particles@.len() == MAX_PARTICLES as int
        &&& self.particles_back@.len() == MAX_PARTICLES as int
        &&& self.num_alive_particles as int <= MAX_PARTICLES as int
        &&& alive_prefix_s(self.particles@, self.num_alive_particles as int)
        &&& self.trails@.len() == self.bodies@.len()
        &&& (forall|i: int| 0 <= i < self.trails@.len() ==> (#[trigger] self.trails@[i]).wf())
        &&& (forall|i: int| 0 <= i < self.bodies@.len() ==> (#[trigger] self.bodies@[i]).mass > 0)
        &&& (forall|i: int|
            0 <= i < self.bodies@.len() ==> ((#[trigger] self.bodies@[i]).is_star <==> i == 0))
        &&& (self.params.target_active ==> self.target_pos == Some(self.params.target))
        &&& (!self.params.target_active ==> self.target_pos is None)
        &&& 100_000_000 <= self.time_scale <= 10_000_000_000
        &&& self.params.time == self.time
    }

    /// Everything two states share when only the particle pool and its
    /// census may differ.
    pub open spec fn eq_but_pool(self, other: Simulation) -> bool {
        &&& self.params == other.params
        &&& self.bodies@ == other.bodies@
        &&& self.bodies_back@ == other.bodies_back@
        &&& self.particles_back@ == other.particles_back@
        &&& self.trails@ == other.trails@
        &&& self.generation == other.generation
        &&& self.time == other.time
        &&& self.paused == other.paused
        &&& self.time_scale == other.time_scale
        &&& self.target_pos == other.target_pos
        &&& self.spawn_mode == other.spawn_mode
    }

    /// Starts a simulation over the given bodies: default parameters, a full
    /// pool of dead particles, trails filled with each body's starting
    /// position, the clock at zero, running at unit time scale, spawning
    /// swarm particles, with no target set.
    pub fn new(bodies: Vec<CelestialBody>) -> (r: Simulation)
        requires
            1 <= bodies@.len() <= MAX_BODIES as int,
            forall|i: int| 0 <= i < bodies@.len() ==> (#[trigger] bodies@[i]).mass > 0,
            forall|i: int|
                0 <= i < bodies@.len() ==> ((#[trigger] bodies@[i]).is_star <==> i == 0),
        ensures
            r.wf(),
            r.bodies@ == bodies@,
            r.params == (SimParams {
                num_bodies: bodies@.len() as u32,
                num_particles: MAX_PARTICLES as u32,
                ..crate::types::default_params_s()
            }),
            r.num_alive_particles == 0,
            forall|i: int|
                0 <= i < MAX_PARTICLES as int ==> #[trigger] r.particles@[i]
                    == crate::types::dead_particle_s(),
            r.generation == 0,
            r.time == 0,
            !r.paused,
            r.time_scale == FX_ONE,
            (r.target_pos is None),
            r.spawn_mode == SpawnMode::Swarm,
    {
        let n: usize = bodies.len();
        let mut params: SimParams = Default::default();
        params.num_bodies = n as u32;
        params.num_particles = MAX_PARTICLES as u32;

        let mut bodies_back: Vec<CelestialBody> = Vec::new();
        let mut trails: Vec<Trail> = Vec::new();
        let mut i: usize = 0;
        while i < n
            invariant
                n == bodies@.len(),
                i <= n,
                bodies_back@ == bodies@.take(i as int),
                trails@.len() == i as int,
                forall|k: int| 0 <= k < i ==> (#[trigger] trails@[k]).wf(),
            decreases n - i,
        {
            let b: CelestialBody = bodies[i];
            bodies_back.push(b);
            trails.push(Trail::new(b.pos));
            proof {
                assert(bodies_back@ =~= bodies@.take(i + 1));
            }
            i = i + 1;
        }
        proof {
            assert(bodies_back@ =~= bodies@);
        }

        let mut particles: Vec<Particle> = Vec::new();
        let mut particles_back: Vec<Particle> = Vec::new();
        let mut j: usize = 0;
        while j < MAX_PARTICLES
            invariant
                j <= MAX_PARTICLES,
                particles@.len() == j as int,
                particles_back@.len() == j as int,
                forall|k: int|
                    0 <= k < j ==> #[trigger] particles@[k] == crate::types::dead_particle_s(),
                forall|k: int|
                    0 <= k < j ==> #[trigger] particles_back@[k]
                        == crate::types::dead_particle_s(),
            decreases MAX_PARTICLES - j,
        {
            particles.push(Particle::dead());
            particles_back.push(Particle::dead());
            j = j + 1;
        }

        Simulation {
            params,
            bodies,
            bodies_back,
            particles,
            particles_back,
            trails,
            generation: 0,
            num_alive_particles: 0,
            time: 0,
            paused: false,
            time_scale: FX_ONE,
            target_pos: None,
            spawn_mode: SpawnMode::Swarm,
        }
    }

    /// The slot the next spawn fills: with the live slots a prefix, the
    /// first dead slot is the one right after them, and there is none only
    /// when the pool is saturated.
    pub fn find_dead_slot(&self) -> (r: Option<usize>)
        requires
            self.wf(),
        ensures
            match r {
                Some(j) => {
                    &&& j < self.particles@.len()
                    &&& !self.particles@[j as int].alive
                    &&& forall|k: int| 0 <= k < j ==> (#[trigger] self.particles@[k]).alive
                    &&& j == self.num_alive_particles
                },
                None => forall|k: int|
                    0 <= k < self.particles@.len() ==> (#[trigger] self.particles@[k]).alive,
            },
            r is Some <==> self.num_alive_particles < MAX_PARTICLES as u32,
    {
        if self.num_alive_particles < MAX_PARTICLES as u32 {
            Some(self.num_alive_particles as usize)
        } else {
            None
        }
    }

    /// Walks the whole pool and counts the live slots; the census field
    /// always matches this count.
    pub fn count_alive(&self) -> (r: u32)
        requires
            self.wf(),
        ensures
            r as int == alive_count_s(self.particles@),
            r == self.num_alive_particles,
    {
        let n: usize = self.particles.len();
        let mut cnt: u32 = 0;
        let mut i: usize = 0;
        while i < n
            invariant
                n == self.particles@.len(),
                n == MAX_PARTICLES as int,
                i <= n,
                cnt as int == alive_count_s(self.particles@.take(i as int)),
                cnt as int <= i as int,
            decreases n - i,
        {
            let p: Particle = self.particles[i];
            proof {
                assert(self.particles@.take(i + 1).drop_last() =~= self.particles@.take(i as int));
                assert(self.particles@.take(i + 1).last() == self.particles@[i as int]);
            }
            if p.alive {
                cnt = cnt + 1;
            }
            i = i + 1;
        }
        proof {
            assert(self.particles@.take(n as int) =~= self.particles@);
            lemma_alive_prefix_count(self.particles@, self.num_alive_particles as int);
        }
        cnt
    }

    /// Spawns one particle of the current mode into the first dead slot; a
    /// saturated pool drops the request and changes nothing.
    pub fn spawn_particle(&mut self, pos: V3, vel: V3)
        requires
            old(self).wf(),
        ensures
            final(self).wf(),
            final(self).eq_but_pool(*old(self)),
            old(self).num_alive_particles < MAX_PARTICLES as u32 ==> {
                &&& final(self).particles@ == old(self).particles@.update(
                    old(self).num_alive_particles as int,
                    spawned_particle_s(old(self).spawn_mode, pos, vel),
                )
                &&& final(self).num_alive_particles == old(self).num_alive_particles + 1
            },
            old(self).num_alive_particles == MAX_PARTICLES as u32 ==> {
                &&& final(self).particles@ == old(self).particles@
                &&& final(self).num_alive_particles == old(self).num_alive_particles
            },
    {
        match self.find_dead_slot() {
            Some(idx) => {
                let p: Particle = match self.spawn_mode {
                    SpawnMode::Swarm => Particle::new_swarm(pos, vel, 100_000_000),
                    SpawnMode::Free => Particle::new_free(pos, vel, 100_000_000),
                    SpawnMode::Burst => Particle::new_burst(pos, vel, 50_000_000),
                };
                self.particles[idx] = p;
                self.num_alive_particles = self.num_alive_particles + 1;
                proof {
                    assert(alive_prefix_s(self.particles@, self.num_alive_particles as int));
                }
            },
            None => {},
        }
    }

    /// Spawns `count` particles of the ambient mode around `center`, each
    /// with a small uniform positional and velocity jitter. Exactly as many
    /// spawn as the pool has dead slots; the rest are dropped.
    pub fn spawn_burst(&mut self, center: V3, count: usize)
        requires
            old(self).wf(),
        ensures
            final(self).wf(),
            final(self).eq_but_pool(*old(self)),
            final(self).num_alive_particles as int == (if old(self).num_alive_particles as int
                + count as int <= MAX_PARTICLES as int {
                old(self).num_alive_particles as int + count as int
            } else {
                MAX_PARTICLES as int
            }),
            forall|i: int|
                0 <= i < old(self).num_alive_particles as int ==> #[trigger] final(self).particles@[i] == old(self).particles@[i],
            forall|i: int|
                final(self).num_alive_particles as int <= i < MAX_PARTICLES as int
                    ==> #[trigger] final(self).particles@[i] == old(self).particles@[i],
            forall|i: int|
                old(self).num_alive_particles as int <= i < final(self).num_alive_particles as int
                    ==> burst_slot_s(#[trigger] final(self).particles@[i], center, old(self).spawn_mode),
    {
        let ghost old_na = old(self).num_alive_particles as int;
        let mut t: usize = 0;
        while t < count
            invariant
                self.wf(),
                self.eq_but_pool(*old(self)),
                t <= count,
                old_na == old(self).num_alive_particles as int,
                self.num_alive_particles as int == (if old_na + t as int <= MAX_PARTICLES as int {
                    old_na + t as int
                } else {
                    MAX_PARTICLES as int
                }),
                forall|i: int|
                    0 <= i < old_na ==> #[trigger] self.particles@[i] == old(self).particles@[i],
                forall|i: int|
                    self.num_alive_particles as int <= i < MAX_PARTICLES as int
                        ==> #[trigger] self.particles@[i] == old(self).particles@[i],
                forall|i: int|
                    old_na <= i < self.num_alive_particles as int ==> burst_slot_s(
                        #[trigger] self.particles@[i],
                        center,
                        old(self).spawn_mode,
                    ),
            decreases count - t,
        {
            let off: V3 = V3::new(jitter(100_000_000), jitter(100_000_000), jitter(100_000_000));
            let jv: V3 = V3::new(jitter(500_000_000), jitter(500_000_000), jitter(500_000_000));
            let pos: V3 = v3_add(center, off);
            let ghost before = self.num_alive_particles as int;
            self.spawn_particle(pos, jv);
            proof {
                if before < MAX_PARTICLES as int {
                    assert(within_s(off, 100_000_000, 100_000_000, 100_000_000));
                    assert(self.particles@[before] == spawned_particle_s(
                        old(self).spawn_mode,
                        v3_add_s(center, off),
                        jv,
                    ));
                    assert(burst_slot_s(self.particles@[before], center, old(self).spawn_mode));
                }
            }
            t = t + 1;
        }
    }

    /// Spawns `count` swarm particles around `center` regardless of the
    /// ambient mode, with a tighter, flatter positional jitter and a damped
    /// velocity jitter; the mode is restored afterwards.
    pub fn spawn_swarm(&mut self, center: V3, count: usize)
        requires
            old(self).wf(),
        ensures
            final(self).wf(),
            final(self).eq_but_pool(*old(self)),
            final(self).num_alive_particles as int == (if old(self).num_alive_particles as int
                + count as int <= MAX_PARTICLES as int {
                old(self).num_alive_particles as int + count as int
            } else {
                MAX_PARTICLES as int
            }),
            forall|i: int|
                0 <= i < old(self).num_alive_particles as int ==> #[trigger] final(self).particles@[i] == old(self).particles@[i],
            forall|i: int|
                final(self).num_alive_particles as int <= i < MAX_PARTICLES as int
                    ==> #[trigger] final(self).particles@[i] == old(self).particles@[i],
            forall|i: int|
                old(self).num_alive_particles as int <= i < final(self).num_alive_particles as int
                    ==> swarm_slot_s(#[trigger] final(self).particles@[i], center),
    {
        let ghost old_na = old(self).num_alive_particles as int;
        let old_mode: SpawnMode = self.spawn_mode;
        self.spawn_mode = SpawnMode::Swarm;
        let mut t: usize = 0;
        while t < count
            invariant
                self.wf(),
                self.spawn_mode == SpawnMode::Swarm,
                self.eq_but_pool((Simulation { spawn_mode: SpawnMode::Swarm, ..*old(self) })),
                old_mode == old(self).spawn_mode,
                t <= count,
                old_na == old(self).num_alive_particles as int,
                self.num_alive_particles as int == (if old_na + t as int <= MAX_PARTICLES as int {
                    old_na + t as int
                } else {
                    MAX_PARTICLES as int
                }),
                forall|i: int|
                    0 <= i < old_na ==> #[trigger] self.particles@[i] == old(self).particles@[i],
                forall|i: int|
                    self.num_alive_particles as int <= i < MAX_PARTICLES as int
                        ==> #[trigger] self.particles@[i] == old(self).particles@[i],
                forall|i: int|
                    old_na <= i < self.num_alive_particles as int ==> swarm_slot_s(
                        #[trigger] self.particles@[i],
                        center,
                    ),
            decreases count - t,
        {
            let off: V3 = V3::new(jitter(150_000_000), jitter(50_000_000), jitter(150_000_000));
            let jv: V3 = V3::new(jitter(300_000_000), jitter(150_000_000), jitter(300_000_000));
            let pos: V3 = v3_add(center, off);
            let ghost before = self.num_alive_particles as int;
            self.spawn_particle(pos, jv);
            proof {
                if before < MAX_PARTICLES as int {
                    assert(within_s(off, 150_000_000, 50_000_000, 150_000_000));
                    assert(self.particles@[before] == spawned_particle_s(
                        SpawnMode::Swarm,
                        v3_add_s(center, off),
                        jv,
                    ));
                    assert(swarm_slot_s(self.particles@[before], center));
                }
            }
            t = t + 1;
        }
        self.spawn_mode = old_mode;
    }

    /// Spawns `count` swarm particles on a jittered ring of radius
    /// `orbit_radius` around the chosen body, each moving tangentially at
    /// three tenths of the circular-orbit speed for its ring. An out-of-range
    /// body index is a no-op, not a failure.
    pub fn spawn_orbital_swarm(&mut self, body_index: usize, count: usize, orbit_radius: i64)
        requires
            old(self).wf(),
            count as int <= i64::MAX as int,
        ensures
            final(self).wf(),
            body_index >= old(self).bodies@.len() ==> *final(self) == *old(self),
            body_index < old(self).bodies@.len() ==> {
                &&& final(self).eq_but_pool(*old(self))
                &&& final(self).num_alive_particles as int == (if old(self).num_alive_particles as int + count as int <= MAX_PARTICLES as int {
                    old(self).num_alive_particles as int + count as int
                } else {
                    MAX_PARTICLES as int
                })
                &&& forall|i: int|
                    0 <= i < old(self).num_alive_particles as int ==> #[trigger] final(self).particles@[i] == old(self).particles@[i]
                &&& forall|i: int|
                    final(self).num_alive_particles as int <= i < MAX_PARTICLES as int
                        ==> #[trigger] final(self).particles@[i] == old(self).particles@[i]
                &&& forall|i: int|
                    old(self).num_alive_particles as int <= i < final(self).num_alive_particles as int ==> orbital_slot_s(
                        #[trigger] final(self).particles@[i],
                        old(self).bodies@[body_index as int],
                        old(self).params.gravitational_constant as int,
                        i - old(self).num_alive_particles as int,
                        count as int,
                        orbit_radius as int,
                    )
            },
    {
        if body_index >= self.bodies.len() {
            return ;
        }
        let body: CelestialBody = self.bodies[body_index];
        let g: i64 = self.params.gravitational_constant;
        let ghost old_na = old(self).num_alive_particles as int;
        let old_mode: SpawnMode = self.spawn_mode;
        self.spawn_mode = SpawnMode::Swarm;
        let mut t: usize = 0;
        while t < count
            invariant
                self.wf(),
                self.spawn_mode == SpawnMode::Swarm,
                self.eq_but_pool((Simulation { spawn_mode: SpawnMode::Swarm, ..*old(self) })),
                old_mode == old(self).spawn_mode,
                t <= count,
                count as int <= i64::MAX as int,
                old_na == old(self).num_alive_particles as int,
                body == old(self).bodies@[body_index as int],
                g == old(self).params.gravitational_constant,
                self.num_alive_particles as int == (if old_na + t as int <= MAX_PARTICLES as int {
                    old_na + t as int
                } else {
                    MAX_PARTICLES as int
                }),
                self.num_alive_particles as int <= old_na + t as int,
                forall|i: int|
                    0 <= i < old_na ==> #[trigger] self.particles@[i] == old(self).particles@[i],
                forall|i: int|
                    self.num_alive_particles as int <= i < MAX_PARTICLES as int
                        ==> #[trigger] self.particles@[i] == old(self).particles@[i],
                forall|i: int|
                    old_na <= i < self.num_alive_particles as int ==> orbital_slot_s(
                        #[trigger] self.particles@[i],
                        old(self).bodies@[body_index as int],
                        old(self).params.gravitational_constant as int,
                        i - old_na,
                        count as int,
                        orbit_radius as int,
                    ),
            decreases count - t,
        {
            let ja: i64 = jitter(100_000_000);
            let jr: i64 = jitter(20_000_000);
            let jy: i64 = jitter(10_000_000);
            let frac: i64 = fx_div(fx_from_int(t as i64), fx_from_int(count as i64));
            let angle: i64 = fx_add(fx_mul(frac, FX_TAU), ja);
            let ring: i64 = fx_add(orbit_radius, jr);
            let cosv: i64 = fx_cos(angle);
            let sinv: i64 = fx_sin(angle);
            let pos: V3 = v3_add(body.pos, V3::new(fx_mul(ring, cosv), jy, fx_mul(ring, sinv)));
            let speed: i64 = fx_mul(fx_sqrt(fx_div(fx_mul(g, body.mass), ring)), 300_000_000);
            let vel: V3 = V3::new(fx_mul(-sinv, speed), 0, fx_mul(cosv, speed));
            let ghost before = self.num_alive_particles as int;
            self.spawn_particle(pos, vel);
            proof {
                if before < MAX_PARTICLES as int {
                    assert(self.particles@[before] == orbital_particle_s(
                        old(self).bodies@[body_index as int],
                        g as int,
                        t as int,
                        count as int,
                        orbit_radius as int,
                        ja as int,
                        jr as int,
                        jy as int,
                    ));
                    assert(orbital_slot_s(
                        self.particles@[before],
                        old(self).bodies@[body_index as int],
                        g as int,
                        before - old_na,
                        count as int,
                        orbit_radius as int,
                    ));
                }
            }
            t = t + 1;
        }
        self.spawn_mode = old_mode;
    }

    /// Marks every slot dead, leaving its position, velocity and the rest of
    /// its data exactly as they were; only the alive flag changes.
    pub fn clear_particles(&mut self)
        requires
            old(self).wf(),
        ensures
            final(self).wf(),
            final(self).eq_but_pool(*old(self)),
            final(self).num_alive_particles == 0,
            final(self).particles@.len() == old(self).particles@.len(),
            forall|i: int|
                0 <= i < old(self).particles@.len() ==> #[trigger] final(self).particles@[i]
                    == (Particle { alive: false, ..old(self).particles@[i] }),
    {
        let n: usize = self.particles.len();
        let mut i: usize = 0;
        while i < n
            invariant
                n == self.particles@.len(),
                self.particles@.len() == old(self).particles@.len(),
                i <= n,
                forall|k: int|
                    0 <= k < i ==> #[trigger] self.particles@[k]
                        == (Particle { alive: false, ..old(self).particles@[k] }),
                forall|k: int| i <= k < n ==> #[trigger] self.particles@[k]
                    == old(self).particles@[k],
                self.eq_but_pool(*old(self)),
                self.num_alive_particles == old(self).num_alive_particles,
            decreases n - i,
        {
            let p: Particle = self.particles[i];
            self.particles[i] = Particle { alive: false, ..p };
            i = i + 1;
        }
        self.num_alive_particles = 0;
    }

    /// Sets the swarm target point and raises the active flag.
    pub fn set_target(&mut self, pos: V3)
        requires
            old(self).wf(),
        ensures
            final(self).wf(),
            final(self).params == (SimParams {
                target: pos,
                target_active: true,
                ..old(self).params
            }),
            final(self).target_pos == Some(pos),
            *final(self)
                == (Simulation {
                params: final(self).params,
                target_pos: final(self).target_pos,
                ..*old(self)
            }),
    {
        self.target_pos = Some(pos);
        self.params.target = pos;
        self.params.target_active = true;
    }

    /// Advances the clock for this frame: the effective step is zero while
    /// paused and the wall step scaled by the time scale otherwise; the step
    /// accumulates into the simulation time, and the census is recounted
    /// from the pool.
    pub fn update_params(&mut self, dt: i64)
        requires
            old(self).wf(),
        ensures
            final(self).wf(),
            final(self).params.dt as int == (if old(self).paused {
                0int
            } else {
                fx_mul_s(dt as int, old(self).time_scale as int)
            }),
            final(self).time as int == fx_add_s(old(self).time as int, final(self).params.dt as int),
            final(self).params == (SimParams {
                dt: final(self).params.dt,
                time: final(self).time,
                ..old(self).params
            }),
            *final(self) == (Simulation {
                params: final(self).params,
                time: final(self).time,
                ..*old(self)
            }),
    {
        if self.paused {
            self.params.dt = 0;
        } else {
            self.params.dt = fx_mul(dt, self.time_scale);
        }
        self.time = fx_add(self.time, self.params.dt);
        self.params.time = self.time;
        let census: u32 = self.count_alive();
        self.num_alive_particles = census;
    }

    /// Runs one frame: advance the clock, advance the bodies from the
    /// current generation into the back one, advance the particles against
    /// those freshly advanced bodies, record a trail sample for each body
    /// (skipped on a zero step so a pause leaves no duplicates), and make
    /// the written generation current.
    pub fn step(&mut self, dt: i64)
        requires
            old(self).wf(),
        ensures
            final(self).wf(),
            final(self).params.dt as int == (if old(self).paused {
                0int
            } else {
                fx_mul_s(dt as int, old(self).time_scale as int)
            }),
            final(self).time as int == fx_add_s(old(self).time as int, final(self).params.dt as int),
            final(self).params == (SimParams {
                dt: final(self).params.dt,
                time: final(self).time,
                ..old(self).params
            }),
            final(self).bodies@ == bodies_next_s(old(self).bodies@, final(self).params),
            final(self).particles@ == particles_next_s(
                old(self).particles@,
                final(self).bodies@,
                final(self).params,
            ),
            final(self).bodies_back@ == old(self).bodies@,
            final(self).particles_back@ == old(self).particles@,
            final(self).num_alive_particles == old(self).num_alive_particles,
            final(self).generation as int == (if old(self).generation == u64::MAX {
                0int
            } else {
                old(self).generation as int + 1
            }),
            final(self).params.dt != 0 ==> {
                &&& final(self).trails@.len() == old(self).trails@.len()
                &&& forall|i: int|
                    0 <= i < old(self).trails@.len() ==> {
                        &&& (#[trigger] final(self).trails@[i]).samples@ == old(self).trails@[i].samples@.update(
                            old(self).trails@[i].head as int,
                            final(self).bodies@[i].pos,
                        )
                        &&& final(self).trails@[i].head as int == (old(self).trails@[i].head + 1)
                            % (crate::types::TRAIL_LENGTH as int)
                    }
            },
            final(self).params.dt == 0 ==> final(self).trails@ == old(self).trails@,
            final(self).paused == old(self).paused,
            final(self).time_scale == old(self).time_scale,
            final(self).target_pos == old(self).target_pos,
            final(self).spawn_mode == old(self).spawn_mode,
    {
        self.update_params(dt);
        step_bodies(&self.bodies, &mut self.bodies_back, &self.params);
        step_particles(&self.particles, &self.bodies_back, &mut self.particles_back, &self.params);
        if self.params.dt != 0 {
            record_trails(&mut self.trails, &self.bodies_back);
        }
        core::mem::swap(&mut self.bodies, &mut self.bodies_back);
        core::mem::swap(&mut self.particles, &mut self.particles_back);
        self.generation = if self.generation == u64::MAX {
            0
        } else {
            self.generation + 1
        };
        proof {
            crate::bodies::lemma_bodies_next_preserves(self.bodies_back@, self.params);
            crate::particles::lemma_step_preserves_slots(
                self.particles_back@,
                self.bodies@,
                self.params,
            );
            assert(alive_prefix_s(self.particles@, self.num_alive_particles as int));
        }
    }

    /// Speeds time up by half again, capped at ten.
    pub fn time_scale_up(&mut self)
        requires
            old(self).wf(),
        ensures
            final(self).wf(),
            final(self).time_scale as int == crate::fx::clamp_s(
                fx_mul_s(old(self).time_scale as int, 1_500_000_000),
                100_000_000,
                10_000_000_000,
            ),
            *final(self) == (Simulation { time_scale: final(self).time_scale, ..*old(self) }),
    {
        self.time_scale = fx_clamp(
            fx_mul(self.time_scale, 1_500_000_000),
            100_000_000,
            10_000_000_000,
        );
    }

    /// Slows time down by a third, floored at a tenth.
    pub fn time_scale_down(&mut self)
        requires
            old(self).wf(),
        ensures
            final(self).wf(),
            final(self).time_scale as int == crate::fx::clamp_s(
                crate::fx::fx_div_s(old(self).time_scale as int, 1_500_000_000),
                100_000_000,
                10_000_000_000,
            ),
            *final(self) == (Simulation { time_scale: final(self).time_scale, ..*old(self) }),
    {
        self.time_scale = fx_clamp(
            fx_div(self.time_scale, 1_500_000_000),
            100_000_000,
            10_000_000_000,
        );
    }

    /// Strengthens the separation rule by a fifth of a unit.
    pub fn tune_separation(&mut self)
        requires
            old(self).wf(),
        ensures
            final(self).wf(),
            final(self).params.separation_weight as int == fx_add_s(
                old(self).params.separation_weight as int,
                200_000_000,
            ),
            *final(self) == (Simulation { params: final(self).params, ..*old(self) }),
            final(self).params == (SimParams {
                separation_weight: final(self).params.separation_weight,
                ..old(self).params
            }),
    {
        self.params.separation_weight = fx_add(self.params.separation_weight, 200_000_000);
    }

    /// Strengthens the alignment rule by a fifth of a unit.
    pub fn tune_alignment(&mut self)
        requires
            old(self).wf(),
        ensures
            final(self).wf(),
            final(self).params.alignment_weight as int == fx_add_s(
                old(self).params.alignment_weight as int,
                200_000_000,
            ),
            *final(self) == (Simulation { params: final(self).params, ..*old(self) }),
            final(self).params == (SimParams {
                alignment_weight: final(self).params.alignment_weight,
                ..old(self).params
            }),
    {
        self.params.alignment_weight = fx_add(self.params.alignment_weight, 200_000_000);
    }

    /// Strengthens the cohesion rule by a fifth of a unit.
    pub fn tune_cohesion(&mut self)
        requires
            old(self).wf(),
        ensures
            final(self).wf(),
            final(self).params.cohesion_weight as int == fx_add_s(
                old(self).params.cohesion_weight as int,
                200_000_000,
            ),
            *final(self) == (Simulation { params: final(self).params, ..*old(self) }),
            final(self).params == (SimParams {
                cohesion_weight: final(self).params.cohesion_weight,
                ..old(self).params
            }),
    {
        self.params.cohesion_weight = fx_add(self.params.cohesion_weight, 200_000_000);
    }

    /// Raises the seek weight by a tenth of a unit, capped at two.
    pub fn tune_swarm_gravity(&mut self)
        requires
            old(self).wf(),
        ensures
            final(self).wf(),
            final(self).params.swarm_gravity_weight as int == (if fx_add_s(
                old(self).params.swarm_gravity_weight as int,
                100_000_000,
            ) > 2_000_000_000 {
                2_000_000_000int
            } else {
                fx_add_s(old(self).params.swarm_gravity_weight as int, 100_000_000)
            }),
            *final(self) == (Simulation { params: final(self).params, ..*old(self) }),
            final(self).params == (SimParams {
                swarm_gravity_weight: final(self).params.swarm_gravity_weight,
                ..old(self).params
            }),
    {
        let w: i64 = fx_add(self.params.swarm_gravity_weight, 100_000_000);
        self.params.swarm_gravity_weight = if w > 2_000_000_000 {
            2_000_000_000
        } else {
            w
        };
    }

    /// Drops the swarm target; the stored point goes stale but inactive.
    pub fn clear_target(&mut self)
        requires
            old(self).wf(),
        ensures
            final(self).wf(),
            final(self).params == (SimParams { target_active: false, ..old(self).params }),
            (final(self).target_pos is None),
            *final(self)
                == (Simulation {
                params: final(self).params,
                target_pos: final(self).target_pos,
                ..*old(self)
            }),
    {
        self.target_pos = None;
        self.params.target_active = false;
    }
}

/// Appends each body's fresh position to its trail ring.
fn record_trails(trails: &mut Vec<Trail>, bodies: &Vec<CelestialBody>)
    requires
        old(trails)@.len() == bodies@.len(),
        forall|i: int| 0 <= i < old(trails)@.len() ==> (#[trigger] old(trails)@[i]).wf(),
    ensures
        final(trails)@.len() == old(trails)@.len(),
        forall|i: int| 0 <= i < old(trails)@.len() ==> (#[trigger] final(trails)@[i]).wf(),
        forall|i: int|
            0 <= i < old(trails)@.len() ==> {
                &&& (#[trigger] final(trails)@[i]).samples@ == old(trails)@[i].samples@.update(
                    old(trails)@[i].head as int,
                    bodies@[i].pos,
                )
                &&& final(trails)@[i].head as int == (old(trails)@[i].head + 1) % (
                crate::types::TRAIL_LENGTH as int)
            },
{
    let n: usize = trails.len();
    let mut i: usize = 0;
    while i < n
        invariant
            n == old(trails)@.len(),
            n == bodies@.len(),
            trails@.len() == n,
            i <= n,
            forall|k: int| 0 <= k < n ==> (#[trigger] old(trails)@[k]).wf(),
            forall|k: int| i <= k < n ==> #[trigger] trails@[k] == old(trails)@[k],
            forall|k: int| 0 <= k < i ==> (#[trigger] trails@[k]).wf(),
            forall|k: int|
                0 <= k < i ==> {
                    &&& (#[trigger] trails@[k]).samples@ == old(trails)@[k].samples@.update(
                        old(trails)@[k].head as int,
                        bodies@[k].pos,
                    )
                    &&& trails@[k].head as int == (old(trails)@[k].head + 1) % (
                    crate::types::TRAIL_LENGTH as int)
                },
        decreases n - i,
    {
        let pos: V3 = bodies[i].pos;
        proof {
            assert(trails@[i as int] == old(trails)@[i as int]);
            assert(trails@[i as int].wf());
        }
        let tr: &mut Trail = &mut trails[i];
        tr.record(pos);
        i = i + 1;
    }
}

} // verus!
