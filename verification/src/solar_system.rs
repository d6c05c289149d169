//! The fixed planetary dataset the simulation starts from, and circular
//! orbit guide lines for display.
//!
//! Units: astronomical units for distance, solar masses for mass, years for
//! time, so the gravitational constant is four pi squared and a circular
//! orbit at radius `r` around the sun moves at `sqrt(G / r)`.

use vstd::prelude::*;

use crate::fx::{fx_div, fx_div_s, fx_from_int, fx_from_int_s, fx_mul, fx_mul_s, fx_sqrt,
    fx_sqrt_s, fx_cos, fx_cos_s, fx_sin, fx_sin_s, FX_ONE, FX_TAU};
use crate::types::{CelestialBody, Color};
use crate::vec3::{v3_len, v3_len_s, V3};

verus! {

/// The gravitational constant, four pi squared, at fixed-point scale.
pub const SOLAR_G: i64 = 39_478_417_600;

/// The sun: one solar mass at rest at the origin.
pub open spec fn sun_s() -> CelestialBody {
    CelestialBody {
        pos: V3 { x: 0, y: 0, z: 0 },
        vel: V3 { x: 0, y: 0, z: 0 },
        mass: FX_ONE,
        radius: 150_000_000,
        color: Color { r: 1_000_000_000, g: 950_000_000, b: 700_000_000, a: 1_000_000_000 },
        is_star: true,
        orbital_speed: 0,
    }
}

/// A planet `dist` out from the sun on the x axis, on a circular orbit: its
/// velocity points along z with the analytic speed `sqrt(G * M_sun / dist)`.
pub open spec fn planet_s(dist: int, mass: int, radius: int, color: Color) -> CelestialBody {
    let speed = fx_sqrt_s(fx_div_s(fx_mul_s(SOLAR_G as int, FX_ONE as int), dist));
    CelestialBody {
        pos: V3 { x: dist as i64, y: 0, z: 0 },
        vel: V3 { x: 0, y: 0, z: speed as i64 },
        mass: mass as i64,
        radius: radius as i64,
        color,
        is_star: false,
        orbital_speed: speed as i64,
    }
}

/// The nine bodies of the dataset: the sun and the eight planets, with
/// real distances and masses and display-compressed radii.
pub open spec fn solar_system_s() -> Seq<CelestialBody> {
    seq![
        sun_s(),
        planet_s(387_000_000, 166, 19_000_000, Color { r: 700_000_000, g: 600_000_000, b: 500_000_000, a: 1_000_000_000 }),
        planet_s(723_000_000, 2_448, 29_000_000, Color { r: 900_000_000, g: 700_000_000, b: 300_000_000, a: 1_000_000_000 }),
        planet_s(1_000_000_000, 3_003, 30_000_000, Color { r: 200_000_000, g: 500_000_000, b: 900_000_000, a: 1_000_000_000 }),
        planet_s(1_524_000_000, 323, 22_000_000, Color { r: 800_000_000, g: 300_000_000, b: 200_000_000, a: 1_000_000_000 }),
        planet_s(5_203_000_000, 954_300, 99_000_000, Color { r: 800_000_000, g: 600_000_000, b: 400_000_000, a: 1_000_000_000 }),
        planet_s(9_537_000_000, 285_800, 91_000_000, Color { r: 900_000_000, g: 800_000_000, b: 500_000_000, a: 1_000_000_000 }),
        planet_s(19_191_000_000, 43_660, 60_000_000, Color { r: 600_000_000, g: 800_000_000, b: 900_000_000, a: 1_000_000_000 }),
        planet_s(30_069_000_000, 51_500, 59_000_000, Color { r: 300_000_000, g: 400_000_000, b: 900_000_000, a: 1_000_000_000 }),
    ]
}

/// Builds one planet record.
fn make_planet(dist: i64, mass: i64, radius: i64, color: Color) -> (r: CelestialBody)
    ensures
        r == planet_s(dist as int, mass as int, radius as int, color),
{
    let speed: i64 = fx_sqrt(fx_div(fx_mul(SOLAR_G, FX_ONE), dist));
    CelestialBody {
        pos: V3::new(dist, 0, 0),
        vel: V3::new(0, 0, speed),
        mass,
        radius,
        color,
        is_star: false,
        orbital_speed: speed,
    }
}

/// The solar system the simulation starts from: the sun at index zero and
/// the eight planets on circular orbits, every mass positive.
pub fn create_solar_system() -> (r: Vec<CelestialBody>)
    ensures
        r@ == solar_system_s(),
        r@.len() == 9,
        forall|i: int| 0 <= i < r@.len() ==> (#[trigger] r@[i]).mass > 0,
        forall|i: int| 0 <= i < r@.len() ==> ((#[trigger] r@[i]).is_star <==> i == 0),
    {
    let mut bodies: Vec<CelestialBody> = Vec::new();
    bodies.push(
        CelestialBody {
            pos: V3::zero(),
            vel: V3::zero(),
            mass: FX_ONE,
            radius: 150_000_000,
            color: Color { r: 1_000_000_000, g: 950_000_000, b: 700_000_000, a: 1_000_000_000 },
            is_star: true,
            orbital_speed: 0,
        },
    );
    bodies.push(
        make_planet(
            387_000_000,
            166,
            19_000_000,
            Color { r: 700_000_000, g: 600_000_000, b: 500_000_000, a: 1_000_000_000 },
        ),
    );
    bodies.push(
        make_planet(
            723_000_000,
            2_448,
            29_000_000,
            Color { r: 900_000_000, g: 700_000_000, b: 300_000_000, a: 1_000_000_000 },
        ),
    );
    bodies.push(
        make_planet(
            1_000_000_000,
            3_003,
            30_000_000,
            Color { r: 200_000_000, g: 500_000_000, b: 900_000_000, a: 1_000_000_000 },
        ),
    );
    bodies.push(
        make_planet(
            1_524_000_000,
            323,
            22_000_000,
            Color { r: 800_000_000, g: 300_000_000, b: 200_000_000, a: 1_000_000_000 },
        ),
    );
    bodies.push(
        make_planet(
            5_203_000_000,
            954_300,
            99_000_000,
            Color { r: 800_000_000, g: 600_000_000, b: 400_000_000, a: 1_000_000_000 },
        ),
    );
    bodies.push(
        make_planet(
            9_537_000_000,
            285_800,
            91_000_000,
            Color { r: 900_000_000, g: 800_000_000, b: 500_000_000, a: 1_000_000_000 },
        ),
    );
    bodies.push(
        make_planet(
            19_191_000_000,
            43_660,
            60_000_000,
            Color { r: 600_000_000, g: 800_000_000, b: 900_000_000, a: 1_000_000_000 },
        ),
    );
    bodies.push(
        make_planet(
            30_069_000_000,
            51_500,
            59_000_000,
            Color { r: 300_000_000, g: 400_000_000, b: 900_000_000, a: 1_000_000_000 },
        ),
    );
    proof {
        assert(bodies@ =~= solar_system_s());
        assert forall|i: int| 0 <= i < bodies@.len() implies (#[trigger] bodies@[i]).mass > 0 by {
            assert(bodies@.len() == 9);
        }
        assert forall|i: int|
            0 <= i < bodies@.len() implies ((#[trigger] bodies@[i]).is_star <==> i == 0) by {
            assert(bodies@.len() == 9);
        }
    }
    bodies
}

/// Vertices per guide ring: a closed line strip of 128 segments.
pub const ORBIT_SEGMENTS: usize = 128;

/// The `seg`-th vertex of a body's guide ring: the body's current distance
/// from the origin swept around the horizontal plane, in a dimmed shade of
/// the body's color.
pub open spec fn orbit_vertex_s(body: CelestialBody, seg: int) -> (V3, Color) {
    let dist = v3_len_s(body.pos);
    let angle = fx_mul_s(
        fx_div_s(fx_from_int_s(seg), fx_from_int_s(ORBIT_SEGMENTS as int)),
        FX_TAU as int,
    );
    (
        V3 {
            x: fx_mul_s(dist, fx_cos_s(angle)) as i64,
            y: 0,
            z: fx_mul_s(dist, fx_sin_s(angle)) as i64,
        },
        Color {
            r: fx_mul_s(body.color.r as int, 300_000_000) as i64,
            g: fx_mul_s(body.color.g as int, 300_000_000) as i64,
            b: fx_mul_s(body.color.b as int, 300_000_000) as i64,
            a: 250_000_000,
        },
    )
}

/// Circular guide lines for every body but the star: for each, a closed ring
/// of its current orbital distance, 129 vertices, dimmed to a quarter of the
/// body's color.
#[verifier::rlimit(50)]
pub fn generate_orbit_lines(bodies: &Vec<CelestialBody>) -> (r: Vec<(V3, Color)>)
    ensures
        bodies@.len() == 0 ==> r@.len() == 0,
        bodies@.len() > 0 ==> r@.len() == (bodies@.len() - 1) * (ORBIT_SEGMENTS + 1),
        forall|b: int, s: int|
            1 <= b < bodies@.len() && 0 <= s <= ORBIT_SEGMENTS as int ==> r@[(b - 1) * (
            ORBIT_SEGMENTS + 1) + s] == #[trigger] orbit_vertex_s(bodies@[b], s),
{
    let mut out: Vec<(V3, Color)> = Vec::new();
    let n: usize = bodies.len();
    if n == 0 {
        return out;
    }
    let ring: usize = ORBIT_SEGMENTS + 1;
    let mut b: usize = 1;
    while b < n
        invariant
            n == bodies@.len(),
            n >= 1,
            ring == ORBIT_SEGMENTS + 1,
            1 <= b <= n,
            out@.len() == (b - 1) * ring,
            forall|bb: int, s: int|
                1 <= bb < b && 0 <= s <= ORBIT_SEGMENTS as int ==> out@[(bb - 1) * (
                ORBIT_SEGMENTS + 1) + s] == #[trigger] orbit_vertex_s(bodies@[bb], s),
        decreases n - b,
    {
        let body: CelestialBody = bodies[b];
        let dist: i64 = v3_len(body.pos);
        let color: Color = Color {
            r: fx_mul(body.color.r, 300_000_000),
            g: fx_mul(body.color.g, 300_000_000),
            b: fx_mul(body.color.b, 300_000_000),
            a: 250_000_000,
        };
        let mut s: usize = 0;
        while s < ring
            invariant
                n == bodies@.len(),
                ring == ORBIT_SEGMENTS + 1,
                1 <= b < n,
                s <= ring,
                body == bodies@[b as int],
                dist as int == v3_len_s(body.pos),
                color == (Color {
                    r: fx_mul_s(body.color.r as int, 300_000_000) as i64,
                    g: fx_mul_s(body.color.g as int, 300_000_000) as i64,
                    b: fx_mul_s(body.color.b as int, 300_000_000) as i64,
                    a: 250_000_000,
                }),
                out@.len() == (b - 1) * ring + s,
                forall|bb: int, ss: int|
                    1 <= bb < b && 0 <= ss <= ORBIT_SEGMENTS as int ==> out@[(bb - 1) * (
                    ORBIT_SEGMENTS + 1) + ss] == #[trigger] orbit_vertex_s(bodies@[bb], ss),
                forall|ss: int|
                    0 <= ss < s ==> out@[(b - 1) * (ORBIT_SEGMENTS + 1) + ss] == orbit_vertex_s(
                        bodies@[b as int],
                        ss,
                    ),
            decreases ring - s,
        {
            let angle: i64 = fx_mul(
                fx_div(fx_from_int(s as i64), fx_from_int(ORBIT_SEGMENTS as i64)),
                FX_TAU,
            );
            let vx: i64 = fx_mul(dist, fx_cos(angle));
            let vz: i64 = fx_mul(dist, fx_sin(angle));
            let vert: (V3, Color) = (V3::new(vx, 0, vz), color);
            proof {
                assert(vert == orbit_vertex_s(bodies@[b as int], s as int));
            }
            out.push(vert);
            proof {
                assert forall|bb: int, ss: int|
                    1 <= bb < b && 0 <= ss <= ORBIT_SEGMENTS as int implies #[trigger] ((bb - 1)
                    * (ORBIT_SEGMENTS + 1) + ss) < (b - 1) * (ORBIT_SEGMENTS + 1) by {
                    assert((bb - 1) * (ORBIT_SEGMENTS + 1) + ss < (b - 1) * (ORBIT_SEGMENTS
                        + 1)) by (nonlinear_arith)
                        requires
                            1 <= bb < b,
                            0 <= ss <= ORBIT_SEGMENTS as int;
                }
            }
            s = s + 1;
        }
        proof {
            assert((b - 1) * ring + ring == ((b + 1) - 1) * ring) by (nonlinear_arith);
        }
        b = b + 1;
        proof {
            assert forall|bb: int, ss: int|
                1 <= bb < b && 0 <= ss <= ORBIT_SEGMENTS as int implies out@[(bb - 1) * (
            ORBIT_SEGMENTS + 1) + ss] == #[trigger] orbit_vertex_s(bodies@[bb], ss) by {
                if bb == b - 1 {
                    assert(out@[(bb - 1) * (ORBIT_SEGMENTS + 1) + ss] == orbit_vertex_s(
                        bodies@[bb],
                        ss,
                    ));
                }
            }
        }
    }
    out
}

} // verus!
