//! The particle field: advances every live particle under body gravity plus,
//! for swarm particles, the three flocking rules and an optional seek force
//! toward a target point. Dead slots are carried over untouched.

use vstd::prelude::*;

use crate::bodies::{eps_sq_s, grav_accel, grav_accel_s};
use crate::fx::{fx_div, fx_div_s, fx_mul, fx_sqrt, fx_sqrt_s};
use crate::types::{CelestialBody, Particle, ParticleKind, SimParams, MAX_PARTICLES};
use crate::vec3::{v3_add, v3_add_s, v3_clamp_mag, v3_clamp_mag_s, v3_len_sq, v3_len_sq_s,
    v3_normalize, v3_normalize_s, v3_scale, v3_scale_s, v3_sdiv, v3_sdiv_s, v3_sub, v3_sub_s,
    v3_zero_s, V3};

verus! {

/// Whether the particle at `j` takes part in the swarm scan of particle `i`:
/// it must be another slot, alive, and of the swarm kind.
pub open spec fn swarm_neighbor_s(ps: Seq<Particle>, i: int, j: int) -> bool {
    j != i && ps[j].alive && ps[j].kind == ParticleKind::Swarm
}

/// Repulsion from one neighbor: the offset away from it divided by the
/// squared distance, i.e. the unit direction inversely weighted by distance.
pub open spec fn sep_contrib_s(diff: V3, d2: int) -> V3 {
    V3 {
        x: fx_div_s(diff.x as int, d2) as i64,
        y: fx_div_s(diff.y as int, d2) as i64,
        z: fx_div_s(diff.z as int, d2) as i64,
    }
}

/// The swarm scan of particle `i` over the first `n` slots: the summed
/// repulsion, the summed velocity and count of alignment neighbors, and the
/// summed position and count of cohesion neighbors.
pub open spec fn swarm_scan_rec(ps: Seq<Particle>, i: int, n: int, params: SimParams) -> (
    V3,
    V3,
    int,
    V3,
    int,
)
    decreases n,
{
    if n <= 0 {
        (v3_zero_s(), v3_zero_s(), 0, v3_zero_s(), 0)
    } else {
        let prev = swarm_scan_rec(ps, i, n - 1, params);
        let j = n - 1;
        if !swarm_neighbor_s(ps, i, j) {
            prev
        } else {
            let diff = v3_sub_s(ps[i].pos, ps[j].pos);
            let d2 = v3_len_sq_s(diff);
            let d = fx_sqrt_s(d2);
            let sep = if d < params.separation_radius {
                v3_add_s(prev.0, sep_contrib_s(diff, d2))
            } else {
                prev.0
            };
            let vsum = if d < params.alignment_radius {
                v3_add_s(prev.1, ps[j].vel)
            } else {
                prev.1
            };
            let vcnt = if d < params.alignment_radius {
                prev.2 + 1
            } else {
                prev.2
            };
            let psum = if d < params.cohesion_radius {
                v3_add_s(prev.3, ps[j].pos)
            } else {
                prev.3
            };
            let pcnt = if d < params.cohesion_radius {
                prev.4 + 1
            } else {
                prev.4
            };
            (sep, vsum, vcnt, psum, pcnt)
        }
    }
}

/// The combined flocking force on particle `i`: separation, alignment toward
/// the neighbors' mean velocity, and cohesion toward their mean position,
/// each weighted and clamped to `max_force` before summation.
pub open spec fn swarm_force_s(ps: Seq<Particle>, i: int, params: SimParams) -> V3 {
    let scan = swarm_scan_rec(ps, i, ps.len() as int, params);
    let me = ps[i];
    let f_sep = v3_clamp_mag_s(
        v3_scale_s(scan.0, params.separation_weight as int),
        params.max_force as int,
    );
    let f_align = if scan.2 > 0 {
        v3_clamp_mag_s(
            v3_scale_s(v3_sub_s(v3_sdiv_s(scan.1, scan.2), me.vel), params.alignment_weight as int),
            params.max_force as int,
        )
    } else {
        v3_zero_s()
    };
    let f_coh = if scan.4 > 0 {
        v3_clamp_mag_s(
            v3_scale_s(v3_sub_s(v3_sdiv_s(scan.3, scan.4), me.pos), params.cohesion_weight as int),
            params.max_force as int,
        )
    } else {
        v3_zero_s()
    };
    v3_add_s(v3_add_s(f_sep, f_align), f_coh)
}

/// The seek force on a swarm particle: the unit direction toward the active
/// target scaled by the swarm-gravity weight; zero while no target is set.
pub open spec fn seek_force_s(me: Particle, params: SimParams) -> V3 {
    if params.target_active {
        v3_scale_s(v3_normalize_s(v3_sub_s(params.target, me.pos)), params.swarm_gravity_weight as int)
    } else {
        v3_zero_s()
    }
}

/// One particle advanced one step. A dead slot is returned unchanged. A live
/// one accumulates gravity from every body (plus flocking and seek when it is
/// of the swarm kind), then integrates semi-implicitly with damping and a
/// speed clamp.
pub open spec fn particle_step_s(
    ps: Seq<Particle>,
    bodies: Seq<CelestialBody>,
    i: int,
    params: SimParams,
) -> Particle {
    let me = ps[i];
    if !me.alive {
        me
    } else {
        let a_grav = grav_accel_s(
            bodies,
            bodies.len() as int,
            me.pos,
            params.gravitational_constant as int,
            eps_sq_s(params),
        );
        let acc = if me.kind == ParticleKind::Swarm {
            v3_add_s(v3_add_s(a_grav, swarm_force_s(ps, i, params)), seek_force_s(me, params))
        } else {
            a_grav
        };
        let vel = v3_clamp_mag_s(
            v3_scale_s(v3_add_s(me.vel, v3_scale_s(acc, params.dt as int)), params.damping as int),
            params.max_speed as int,
        );
        let pos = v3_add_s(me.pos, v3_scale_s(vel, params.dt as int));
        Particle { pos, vel, ..me }
    }
}

/// The whole next generation of the pool.
pub open spec fn particles_next_s(
    ps: Seq<Particle>,
    bodies: Seq<CelestialBody>,
    params: SimParams,
) -> Seq<Particle> {
    Seq::new(ps.len(), |i: int| particle_step_s(ps, bodies, i, params))
}

/// A step never spawns, kills or retypes a particle: every slot keeps its
/// liveness, kind, mass, radius and color, and a dead slot keeps its position
/// and velocity bit for bit.
pub proof fn lemma_step_preserves_slots(
    ps: Seq<Particle>,
    bodies: Seq<CelestialBody>,
    params: SimParams,
)
    ensures
        particles_next_s(ps, bodies, params).len() == ps.len(),
        forall|i: int|
            0 <= i < ps.len() ==> {
                let next = #[trigger] particles_next_s(ps, bodies, params)[i];
                next.alive == ps[i].alive && next.kind == ps[i].kind && next.mass == ps[i].mass
                    && next.radius == ps[i].radius && next.color == ps[i].color
            },
        forall|i: int|
            0 <= i < ps.len() && !ps[i].alive ==> #[trigger] particles_next_s(ps, bodies, params)[i]
                == ps[i],
{
}

/// Repulsion from one neighbor.
fn sep_contrib(diff: V3, d2: i64) -> (r: V3)
    ensures
        r == sep_contrib_s(diff, d2 as int),
{
    V3 { x: fx_div(diff.x, d2), y: fx_div(diff.y, d2), z: fx_div(diff.z, d2) }
}

/// Scans the whole pool and combines the three flocking rules for particle `i`.
fn swarm_force(ps: &Vec<Particle>, i: usize, params: &SimParams) -> (r: V3)
    requires
        i < ps@.len(),
        ps@.len() <= MAX_PARTICLES,
    ensures
        r == swarm_force_s(ps@, i as int, *params),
{
    let me: Particle = ps[i];
    let mut sep: V3 = V3::zero();
    let mut vsum: V3 = V3::zero();
    let mut vcnt: usize = 0;
    let mut psum: V3 = V3::zero();
    let mut pcnt: usize = 0;
    let n: usize = ps.len();
    for j in 0..n
        invariant
            n == ps@.len(),
            n <= MAX_PARTICLES,
            i < n,
            me == ps@[i as int],
            vcnt <= j,
            pcnt <= j,
            (sep, vsum, vcnt as int, psum, pcnt as int) == swarm_scan_rec(
                ps@,
                i as int,
                j as int,
                *params,
            ),
    {
        if j != i {
            let other: Particle = ps[j];
            if other.alive && other.kind == ParticleKind::Swarm {
                let diff: V3 = v3_sub(me.pos, other.pos);
                let d2: i64 = v3_len_sq(diff);
                let d: i64 = fx_sqrt(d2);
                if d < params.separation_radius {
                    sep = v3_add(sep, sep_contrib(diff, d2));
                }
                if d < params.alignment_radius {
                    vsum = v3_add(vsum, other.vel);
                    vcnt = vcnt + 1;
                }
                if d < params.cohesion_radius {
                    psum = v3_add(psum, other.pos);
                    pcnt = pcnt + 1;
                }
            }
        }
    }
    let f_sep: V3 = v3_clamp_mag(v3_scale(sep, params.separation_weight), params.max_force);
    let f_align: V3 = if vcnt > 0 {
        v3_clamp_mag(
            v3_scale(v3_sub(v3_sdiv(vsum, vcnt as i64), me.vel), params.alignment_weight),
            params.max_force,
        )
    } else {
        V3::zero()
    };
    let f_coh: V3 = if pcnt > 0 {
        v3_clamp_mag(
            v3_scale(v3_sub(v3_sdiv(psum, pcnt as i64), me.pos), params.cohesion_weight),
            params.max_force,
        )
    } else {
        V3::zero()
    };
    v3_add(v3_add(f_sep, f_align), f_coh)
}

/// The seek force toward the active target.
fn seek_force(me: Particle, params: &SimParams) -> (r: V3)
    ensures
        r == seek_force_s(me, *params),
{
    if params.target_active {
        v3_scale(v3_normalize(v3_sub(params.target, me.pos)), params.swarm_gravity_weight)
    } else {
        V3::zero()
    }
}

/// Advances every particle of `src` one step into `dst`, reading only `src`
/// and the freshly advanced bodies, so no update observes another's write.
pub fn step_particles(
    src: &Vec<Particle>,
    bodies: &Vec<CelestialBody>,
    dst: &mut Vec<Particle>,
    params: &SimParams,
)
    requires
        old(dst)@.len() == src@.len(),
        src@.len() <= MAX_PARTICLES,
    ensures
        final(dst)@ == particles_next_s(src@, bodies@, *params),
{
    let eps2: i64 = fx_mul(params.softening, params.softening);
    let g: i64 = params.gravitational_constant;
    let nb: usize = bodies.len();
    let n: usize = src.len();
    let mut i: usize = 0;
    while i < n
        invariant
            n == src@.len(),
            n <= MAX_PARTICLES,
            nb == bodies@.len(),
            dst@.len() == n,
            i <= n,
            forall|k: int|
                0 <= k < i ==> dst@[k] == particle_step_s(src@, bodies@, k, *params),
            eps2 as int == eps_sq_s(*params),
            g == params.gravitational_constant,
        decreases n - i,
    {
        let me: Particle = src[i];
        if !me.alive {
            dst[i] = me;
        } else {
            let a_grav: V3 = grav_accel(bodies, nb, me.pos, g, eps2);
            let acc: V3 = if me.kind == ParticleKind::Swarm {
                v3_add(v3_add(a_grav, swarm_force(src, i, params)), seek_force(me, params))
            } else {
                a_grav
            };
            let vel: V3 = v3_clamp_mag(
                v3_scale(v3_add(me.vel, v3_scale(acc, params.dt)), params.damping),
                params.max_speed,
            );
            let pos: V3 = v3_add(me.pos, v3_scale(vel, params.dt));
            dst[i] = Particle { pos, vel, ..me };
        }
        i = i + 1;
    }
    proof {
        assert(dst@ =~= particles_next_s(src@, bodies@, *params));
    }
}

} // verus!
