//! The body integrator: advances celestial bodies under mutual gravity with
//! a softened inverse-square law and semi-implicit Euler integration, and
//! keeps a fixed-length ring of trail samples per body.

use vstd::prelude::*;

use crate::fx::{fx_add, fx_add_s, fx_div, fx_div_s, fx_mul, fx_mul_s, fx_sqrt, fx_sqrt_s};
use crate::types::{CelestialBody, SimParams, TRAIL_LENGTH};
use crate::vec3::{v3_add, v3_add_s, v3_len_sq, v3_len_sq_s, v3_scale, v3_scale_s, v3_sub,
    v3_sub_s, v3_zero_s, V3};

verus! {

/// The squared softening length a parameter set implies.
pub open spec fn eps_sq_s(params: SimParams) -> int {
    fx_mul_s(params.softening as int, params.softening as int)
}

/// Acceleration a mass `mj` at `pj` induces at `pi`:
/// `g * mj * (pj - pi) / (|pj - pi|^2 + eps2)^(3/2)`, element for element in
/// saturating fixed point.
pub open spec fn grav_contrib_s(pi: V3, pj: V3, mj: int, g: int, eps2: int) -> V3 {
    let d = v3_sub_s(pj, pi);
    let soft = fx_add_s(v3_len_sq_s(d), eps2);
    let denom = fx_mul_s(soft, fx_sqrt_s(soft));
    let s = fx_div_s(fx_mul_s(g, mj), denom);
    v3_scale_s(d, s)
}

/// Total gravitational acceleration at `pos` from the first `n` bodies,
/// leaving out the body at index `skip`.
pub open spec fn grav_accel_rec(
    bodies: Seq<CelestialBody>,
    skip: int,
    pos: V3,
    n: int,
    g: int,
    eps2: int,
) -> V3
    decreases n,
{
    if n <= 0 {
        v3_zero_s()
    } else {
        let prev = grav_accel_rec(bodies, skip, pos, n - 1, g, eps2);
        if n - 1 == skip {
            prev
        } else {
            v3_add_s(prev, grav_contrib_s(pos, bodies[n - 1].pos, bodies[n - 1].mass as int, g, eps2))
        }
    }
}

/// Total gravitational acceleration at `pos` from every body but `skip`.
pub open spec fn grav_accel_s(bodies: Seq<CelestialBody>, skip: int, pos: V3, g: int, eps2: int) -> V3 {
    grav_accel_rec(bodies, skip, pos, bodies.len() as int, g, eps2)
}

/// Acceleration a single body contributes.
fn grav_contrib(pi: V3, pj: V3, mj: i64, g: i64, eps2: i64) -> (r: V3)
    ensures
        r == grav_contrib_s(pi, pj, mj as int, g as int, eps2 as int),
{
    let d: V3 = v3_sub(pj, pi);
    let soft: i64 = fx_add(v3_len_sq(d), eps2);
    let denom: i64 = fx_mul(soft, fx_sqrt(soft));
    let s: i64 = fx_div(fx_mul(g, mj), denom);
    v3_scale(d, s)
}

/// Accumulates gravity at `pos` from every body whose index is not `skip`
/// (pass the body count or more to keep them all).
pub fn grav_accel(bodies: &Vec<CelestialBody>, skip: usize, pos: V3, g: i64, eps2: i64) -> (r: V3)
    ensures
        r == grav_accel_s(bodies@, skip as int, pos, g as int, eps2 as int),
{
    let mut acc: V3 = V3::zero();
    let n: usize = bodies.len();
    for j in 0..n
        invariant
            n == bodies@.len(),
            acc == grav_accel_rec(bodies@, skip as int, pos, j as int, g as int, eps2 as int),
    {
        if j != skip {
            let b: CelestialBody = bodies[j];
            acc = v3_add(acc, grav_contrib(pos, b.pos, b.mass, g, eps2));
        }
    }
    acc
}

/// One body advanced one step: velocity first, then position from the new
/// velocity (semi-implicit Euler). Mass, radius, color and flags carry over.
pub open spec fn body_step_s(bodies: Seq<CelestialBody>, i: int, params: SimParams) -> CelestialBody {
    let b = bodies[i];
    let acc = grav_accel_s(bodies, i, b.pos, params.gravitational_constant as int, eps_sq_s(params));
    let vel = v3_add_s(b.vel, v3_scale_s(acc, params.dt as int));
    let pos = v3_add_s(b.pos, v3_scale_s(vel, params.dt as int));
    CelestialBody { pos, vel, ..b }
}

/// The whole next generation of bodies.
pub open spec fn bodies_next_s(bodies: Seq<CelestialBody>, params: SimParams) -> Seq<CelestialBody> {
    Seq::new(bodies.len(), |i: int| body_step_s(bodies, i, params))
}

/// A step moves bodies and changes their velocities, nothing else: count,
/// masses, radii, colors, star flags and cached orbital speeds carry over.
pub proof fn lemma_bodies_next_preserves(bodies: Seq<CelestialBody>, params: SimParams)
    ensures
        bodies_next_s(bodies, params).len() == bodies.len(),
        forall|i: int|
            0 <= i < bodies.len() ==> {
                let next = #[trigger] bodies_next_s(bodies, params)[i];
                next.mass == bodies[i].mass && next.radius == bodies[i].radius && next.color
                    == bodies[i].color && next.is_star == bodies[i].is_star && next.orbital_speed
                    == bodies[i].orbital_speed
            },
{
}

/// A zero time step leaves every body exactly as it was.
pub proof fn lemma_bodies_step_zero_dt(bodies: Seq<CelestialBody>, params: SimParams)
    requires
        params.dt == 0,
    ensures
        bodies_next_s(bodies, params) =~= bodies,
{
    assert forall|i: int| 0 <= i < bodies.len() implies bodies_next_s(bodies, params)[i]
        == bodies[i] by {
        let b = bodies[i];
        let acc = grav_accel_s(
            bodies,
            i,
            b.pos,
            params.gravitational_constant as int,
            eps_sq_s(params),
        );
        assert(v3_scale_s(acc, 0) == v3_zero_s());
        assert(v3_add_s(b.vel, v3_zero_s()) == b.vel);
        assert(v3_add_s(b.pos, v3_zero_s()) == b.pos);
    }
}

/// Advances every body of `src` one step into `dst`, reading only `src`, so
/// the pass never observes its own writes.
pub fn step_bodies(src: &Vec<CelestialBody>, dst: &mut Vec<CelestialBody>, params: &SimParams)
    requires
        old(dst)@.len() == src@.len(),
    ensures
        final(dst)@ == bodies_next_s(src@, *params),
{
    let eps2: i64 = fx_mul(params.softening, params.softening);
    let g: i64 = params.gravitational_constant;
    let n: usize = src.len();
    let mut i: usize = 0;
    while i < n
        invariant
            n == src@.len(),
            dst@.len() == n,
            i <= n,
            forall|k: int| 0 <= k < i ==> dst@[k] == body_step_s(src@, k, *params),
            eps2 as int == eps_sq_s(*params),
            g == params.gravitational_constant,
        decreases n - i,
    {
        let b: CelestialBody = src[i];
        let acc: V3 = grav_accel(src, i, b.pos, g, eps2);
        let vel: V3 = v3_add(b.vel, v3_scale(acc, params.dt));
        let pos: V3 = v3_add(b.pos, v3_scale(vel, params.dt));
        dst[i] = CelestialBody { pos, vel, ..b };
        i = i + 1;
    }
    proof {
        assert(dst@ =~= bodies_next_s(src@, *params));
    }
}

/// A ring buffer of recent positions of one body, for display only.
pub struct Trail {
    /// The samples, overwritten circularly.
    pub samples: Vec<V3>,
    /// Index the next sample is written at.
    pub head: usize,
}

impl Trail {
    /// A trail is a full ring with its write head inside it.
    pub open spec fn wf(self) -> bool {
        self.samples@.len() == TRAIL_LENGTH && self.head < TRAIL_LENGTH
    }

    /// A fresh trail: every sample holds the starting position.
    pub fn new(pos: V3) -> (r: Trail)
        ensures
            r.wf(),
            r.head == 0,
            forall|k: int| 0 <= k < TRAIL_LENGTH ==> r.samples@[k] == pos,
    {
        let samples: Vec<V3> = vec![pos; TRAIL_LENGTH];
        Trail { samples, head: 0 }
    }

    /// Overwrites the sample under the head and advances the head one step,
    /// wrapping at the ring's length.
    pub fn record(&mut self, pos: V3)
        requires
            old(self).wf(),
        ensures
            final(self).wf(),
            final(self).samples@ == old(self).samples@.update(old(self).head as int, pos),
            final(self).head as int == (old(self).head + 1) % (TRAIL_LENGTH as int),
    {
        let h: usize = self.head;
        self.samples[h] = pos;
        self.head = if h + 1 == TRAIL_LENGTH {
            0
        } else {
            h + 1
        };
    }
}

} // verus!
