//! The orbit camera: spherical coordinates around a look-at target, smoothed
//! toward interaction targets, with screen-to-world ray casting and
//! ray-plane picking.
//!
//! Matrices for the renderer are the collaborator's business; everything the
//! interaction logic needs — the eye point, the view basis and the picking
//! ray — is computed here from the spherical state in fixed point.

use vstd::prelude::*;

use crate::fx::{clamp_s, fx_add, fx_add_s, fx_clamp, fx_cos, fx_cos_s, fx_div, fx_div_s,
    fx_from_int, fx_from_int_s, fx_mul, fx_mul_s, fx_sin, fx_sin_s, fx_sub, fx_sub_s, iabs,
    sdiv, FX_ONE};
use crate::vec3::{v3_add, v3_add_s, v3_cross, v3_cross_s, v3_normalize, v3_normalize_s,
    v3_scale, v3_scale_s, v3_sub, v3_sub_s, V3};

verus! {

/// Pointer buttons the camera reacts to.
#[derive(Clone, Copy, Debug, PartialEq, Eq, Structural)]
pub enum MouseButton {
    Left,
    Right,
    Middle,
}

/// Elevation stays a tenth of a radian away from the poles.
pub const PHI_CLAMP: i64 = 1_470_796_327;

/// An orbiting, panning, zooming viewpoint. Current values trail their
/// interaction targets through critically damped smoothing.
pub struct Camera {
    /// Distance from the look-at target.
    pub distance: i64,
    /// Horizontal angle, radians.
    pub theta: i64,
    /// Vertical angle, radians.
    pub phi: i64,
    /// The look-at target.
    pub target: V3,
    /// Values the current state is smoothed toward.
    pub target_distance: i64,
    pub target_theta: i64,
    pub target_phi: i64,
    pub target_target: V3,
    /// Configuration bounds for the distance.
    pub min_distance: i64,
    pub max_distance: i64,
    /// Vertical field of view, radians.
    pub fov: i64,
    pub near: i64,
    pub far: i64,
    pub aspect: i64,
    /// Interaction flags.
    pub is_panning: bool,
    pub is_orbiting: bool,
    /// The last pointer position, dropped on button release so the next move
    /// starts from a fresh baseline.
    pub last_mouse: Option<(i64, i64)>,
}

/// The unit offset from the look-at target toward the eye, by the spherical
/// convention `x = sin(theta)cos(phi), y = sin(phi), z = cos(theta)cos(phi)`.
pub open spec fn eye_offset_unit_s(theta: int, phi: int) -> V3 {
    V3 {
        x: fx_mul_s(fx_cos_s(phi), fx_sin_s(theta)) as i64,
        y: fx_sin_s(phi) as i64,
        z: fx_mul_s(fx_cos_s(phi), fx_cos_s(theta)) as i64,
    }
}

/// The camera's orthonormal view basis (right, up, forward), derived from
/// the spherical angles as a right-handed look-at with the world up axis.
pub open spec fn cam_basis_s(theta: int, phi: int) -> (V3, V3, V3) {
    let e = eye_offset_unit_s(theta, phi);
    let f = v3_normalize_s(v3_sub_s(V3 { x: 0, y: 0, z: 0 }, e));
    let right = v3_normalize_s(v3_cross_s(f, V3 { x: 0, y: FX_ONE, z: 0 }));
    let up = v3_cross_s(right, f);
    (right, up, f)
}

/// The view basis of the current (un-smoothed) spherical state.
fn cam_basis(theta: i64, phi: i64) -> (r: (V3, V3, V3))
    ensures
        r == cam_basis_s(theta as int, phi as int),
{
    let e: V3 = V3::new(
        fx_mul(fx_cos(phi), fx_sin(theta)),
        fx_sin(phi),
        fx_mul(fx_cos(phi), fx_cos(theta)),
    );
    let f: V3 = v3_normalize(v3_sub(V3::zero(), e));
    let right: V3 = v3_normalize(v3_cross(f, V3::new(0, FX_ONE, 0)));
    let up: V3 = v3_cross(right, f);
    (right, up, f)
}

/// Where the eye stands: the target plus the spherical offset scaled by the
/// distance, multiplied in the same order the state stores it.
pub open spec fn eye_position_s(cam: Camera) -> V3 {
    v3_add_s(
        cam.target,
        V3 {
            x: fx_mul_s(fx_mul_s(cam.distance as int, fx_cos_s(cam.phi as int)), fx_sin_s(
                cam.theta as int,
            )) as i64,
            y: fx_mul_s(cam.distance as int, fx_sin_s(cam.phi as int)) as i64,
            z: fx_mul_s(fx_mul_s(cam.distance as int, fx_cos_s(cam.phi as int)), fx_cos_s(
                cam.theta as int,
            )) as i64,
        },
    )
}

/// One smoothing step of a scalar: move from `cur` toward `goal` by the
/// fraction `ls` of the gap.
pub open spec fn lerp_s(cur: int, goal: int, ls: int) -> int {
    fx_add_s(cur, fx_mul_s(fx_sub_s(goal, cur), ls))
}

/// Where a picking ray meets the horizontal plane at `plane_y`: nowhere when
/// the ray runs within a millionth of parallel, or when the plane lies
/// behind the origin; else the origin advanced `t = (plane_y - origin.y) /
/// dir.y` along the direction.
pub open spec fn ray_plane_s(origin: V3, dir: V3, plane_y: int) -> Option<V3> {
    if iabs(dir.y as int) < 1000 {
        None
    } else {
        let t = fx_div_s(fx_sub_s(plane_y, origin.y as int), dir.y as int);
        if t < 0 {
            None
        } else {
            Some(v3_add_s(origin, v3_scale_s(dir, t)))
        }
    }
}

/// The world-space picking ray of a pixel: normalized device coordinates
/// from the pixel, scaled onto the near plane by the field of view and
/// aspect, and carried into world space along the view basis — the same ray
/// an unprojection through the inverse projection and view matrices yields.
pub open spec fn screen_ray_dir_s(cam: Camera, sx: int, sy: int, w: int, h: int) -> V3 {
    let ndc_x = fx_sub_s(fx_div_s(fx_mul_s(2_000_000_000, sx), w), FX_ONE as int);
    let ndc_y = fx_sub_s(FX_ONE as int, fx_div_s(fx_mul_s(2_000_000_000, sy), h));
    let half = crate::fx::sat64(crate::fx::quot(cam.fov as int, 2));
    let tan_half = fx_div_s(fx_sin_s(half), fx_cos_s(half));
    let basis = cam_basis_s(cam.theta as int, cam.phi as int);
    let cx = fx_mul_s(fx_mul_s(ndc_x, tan_half), cam.aspect as int);
    let cy = fx_mul_s(ndc_y, tan_half);
    v3_normalize_s(
        v3_add_s(v3_add_s(v3_scale_s(basis.0, cx), v3_scale_s(basis.1, cy)), basis.2),
    )
}

impl Camera {
    /// The distance bounds are ordered and positive.
    pub open spec fn wf(self) -> bool {
        0 < self.min_distance <= self.max_distance
    }

    /// A camera five units out, at an eighth of a turn sideways and half a
    /// radian up, looking at the origin, with a sixty-degree field of view.
    pub fn new() -> (r: Camera)
        ensures
            r.wf(),
            r == (Camera {
                distance: 5_000_000_000,
                theta: 785_398_163,
                phi: 500_000_000,
                target: V3 { x: 0, y: 0, z: 0 },
                target_distance: 5_000_000_000,
                target_theta: 785_398_163,
                target_phi: 500_000_000,
                target_target: V3 { x: 0, y: 0, z: 0 },
                min_distance: 100_000_000,
                max_distance: 100_000_000_000,
                fov: 1_047_197_551,
                near: 1_000_000,
                far: 300_000_000_000,
                aspect: 1_777_777_777,
                is_panning: false,
                is_orbiting: false,
                last_mouse: None,
            }),
    {
        Camera {
            distance: 5_000_000_000,
            theta: 785_398_163,
            phi: 500_000_000,
            target: V3::zero(),
            target_distance: 5_000_000_000,
            target_theta: 785_398_163,
            target_phi: 500_000_000,
            target_target: V3::zero(),
            min_distance: 100_000_000,
            max_distance: 100_000_000_000,
            fov: 1_047_197_551,
            near: 1_000_000,
            far: 300_000_000_000,
            aspect: 1_777_777_777,
            is_panning: false,
            is_orbiting: false,
            last_mouse: None,
        }
    }

    /// The eye point of the current spherical state.
    pub fn eye_position(&self) -> (r: V3)
        ensures
            r == eye_position_s(*self),
    {
        let x: i64 = fx_mul(fx_mul(self.distance, fx_cos(self.phi)), fx_sin(self.theta));
        let y: i64 = fx_mul(self.distance, fx_sin(self.phi));
        let z: i64 = fx_mul(fx_mul(self.distance, fx_cos(self.phi)), fx_cos(self.theta));
        v3_add(self.target, V3::new(x, y, z))
    }

    /// Zooming: a scroll of `delta` shrinks the target distance by a tenth
    /// of itself per unit, clamped to the configured bounds.
    pub fn handle_scroll(&mut self, delta: i64)
        requires
            old(self).wf(),
        ensures
            final(self).wf(),
            final(self).target_distance as int == clamp_s(
                fx_sub_s(
                    old(self).target_distance as int,
                    fx_mul_s(
                        fx_mul_s(delta as int, old(self).target_distance as int),
                        100_000_000,
                    ),
                ),
                old(self).min_distance as int,
                old(self).max_distance as int,
            ),
            *final(self) == (Camera { target_distance: final(self).target_distance, ..*old(self) }),
    {
        self.target_distance = fx_clamp(
            fx_sub(self.target_distance, fx_mul(fx_mul(delta, self.target_distance), 100_000_000)),
            self.min_distance,
            self.max_distance,
        );
    }

    /// A pointer move. With a baseline from an earlier move, orbiting turns
    /// the target angles by five thousandths of a radian per pixel (the
    /// elevation clamped away from the poles), and panning translates the
    /// look-at target along the current view basis by two thousandths of the
    /// distance per pixel. The first move after a press only sets the
    /// baseline.
    pub fn handle_mouse_move(&mut self, x: i64, y: i64)
        requires
            old(self).wf(),
        ensures
            final(self).wf(),
            final(self).last_mouse == Some((x, y)),
            old(self).last_mouse is None ==> *final(self) == (Camera {
                last_mouse: Some((x, y)),
                ..*old(self)
            }),
            old(self).last_mouse == Some((old(self).last_mouse->Some_0.0, old(
                self,
            ).last_mouse->Some_0.1)) ==> {
                let lx = old(self).last_mouse->Some_0.0 as int;
                let ly = old(self).last_mouse->Some_0.1 as int;
                let dx = fx_sub_s(x as int, lx);
                let dy = fx_sub_s(y as int, ly);
                &&& final(self).target_theta as int == (if old(self).is_orbiting {
                    fx_sub_s(old(self).target_theta as int, fx_mul_s(dx, 5_000_000))
                } else {
                    old(self).target_theta as int
                })
                &&& final(self).target_phi as int == (if old(self).is_orbiting {
                    clamp_s(
                        fx_add_s(old(self).target_phi as int, fx_mul_s(dy, 5_000_000)),
                        -PHI_CLAMP as int,
                        PHI_CLAMP as int,
                    )
                } else {
                    old(self).target_phi as int
                })
                &&& final(self).target_target == (if old(self).is_panning {
                    let basis = cam_basis_s(old(self).theta as int, old(self).phi as int);
                    let pan_speed = fx_mul_s(old(self).distance as int, 2_000_000);
                    v3_add_s(
                        v3_sub_s(
                            old(self).target_target,
                            v3_scale_s(basis.0, fx_mul_s(dx, pan_speed)),
                        ),
                        v3_scale_s(basis.1, fx_mul_s(dy, pan_speed)),
                    )
                } else {
                    old(self).target_target
                })
                &&& *final(self) == (Camera {
                    target_theta: final(self).target_theta,
                    target_phi: final(self).target_phi,
                    target_target: final(self).target_target,
                    last_mouse: Some((x, y)),
                    ..*old(self)
                })
            },
    {
        match self.last_mouse {
            Some((lx, ly)) => {
                let dx: i64 = fx_sub(x, lx);
                let dy: i64 = fx_sub(y, ly);
                if self.is_orbiting {
                    self.target_theta = fx_sub(self.target_theta, fx_mul(dx, 5_000_000));
                    self.target_phi = fx_clamp(
                        fx_add(self.target_phi, fx_mul(dy, 5_000_000)),
                        -PHI_CLAMP,
                        PHI_CLAMP,
                    );
                }
                if self.is_panning {
                    let basis: (V3, V3, V3) = cam_basis(self.theta, self.phi);
                    let pan_speed: i64 = fx_mul(self.distance, 2_000_000);
                    self.target_target = v3_sub(
                        self.target_target,
                        v3_scale(basis.0, fx_mul(dx, pan_speed)),
                    );
                    self.target_target = v3_add(
                        self.target_target,
                        v3_scale(basis.1, fx_mul(dy, pan_speed)),
                    );
                }
            },
            None => {},
        }
        self.last_mouse = Some((x, y));
    }

    /// Presses and releases: the left button orbits, the right and middle
    /// buttons pan; any release drops the pointer baseline.
    pub fn handle_mouse_button(&mut self, button: MouseButton, pressed: bool)
        requires
            old(self).wf(),
        ensures
            final(self).wf(),
            final(self).is_orbiting == (if button == MouseButton::Left {
                pressed
            } else {
                old(self).is_orbiting
            }),
            final(self).is_panning == (if button == MouseButton::Left {
                old(self).is_panning
            } else {
                pressed
            }),
            final(self).last_mouse == (if pressed {
                old(self).last_mouse
            } else {
                None::<(i64, i64)>
            }),
            *final(self) == (Camera {
                is_orbiting: final(self).is_orbiting,
                is_panning: final(self).is_panning,
                last_mouse: final(self).last_mouse,
                ..*old(self)
            }),
    {
        match button {
            MouseButton::Left => {
                self.is_orbiting = pressed;
            },
            MouseButton::Right => {
                self.is_panning = pressed;
            },
            MouseButton::Middle => {
                self.is_panning = pressed;
            },
        }
        if !pressed {
            self.last_mouse = None;
        }
    }

    /// Smoothing: every current value moves toward its target by the
    /// fraction `min(1, 8 dt)` of the remaining gap, approaching
    /// asymptotically without overshoot.
    pub fn update(&mut self, dt: i64)
        requires
            old(self).wf(),
        ensures
            final(self).wf(),
            ({
                let ls = (if fx_mul_s(8_000_000_000, dt as int) > FX_ONE as int {
                    FX_ONE as int
                } else {
                    fx_mul_s(8_000_000_000, dt as int)
                });
                &&& final(self).distance as int == lerp_s(
                    old(self).distance as int,
                    old(self).target_distance as int,
                    ls,
                )
                &&& final(self).theta as int == lerp_s(
                    old(self).theta as int,
                    old(self).target_theta as int,
                    ls,
                )
                &&& final(self).phi as int == lerp_s(
                    old(self).phi as int,
                    old(self).target_phi as int,
                    ls,
                )
                &&& final(self).target == (V3 {
                    x: lerp_s(old(self).target.x as int, old(self).target_target.x as int, ls) as i64,
                    y: lerp_s(old(self).target.y as int, old(self).target_target.y as int, ls) as i64,
                    z: lerp_s(old(self).target.z as int, old(self).target_target.z as int, ls) as i64,
                })
            }),
            *final(self) == (Camera {
                distance: final(self).distance,
                theta: final(self).theta,
                phi: final(self).phi,
                target: final(self).target,
                ..*old(self)
            }),
    {
        let raw: i64 = fx_mul(8_000_000_000, dt);
        let ls: i64 = if raw > FX_ONE {
            FX_ONE
        } else {
            raw
        };
        self.distance = fx_add(self.distance, fx_mul(fx_sub(self.target_distance, self.distance), ls));
        self.theta = fx_add(self.theta, fx_mul(fx_sub(self.target_theta, self.theta), ls));
        self.phi = fx_add(self.phi, fx_mul(fx_sub(self.target_phi, self.phi), ls));
        self.target = V3::new(
            fx_add(self.target.x, fx_mul(fx_sub(self.target_target.x, self.target.x), ls)),
            fx_add(self.target.y, fx_mul(fx_sub(self.target_target.y, self.target.y), ls)),
            fx_add(self.target.z, fx_mul(fx_sub(self.target_target.z, self.target.z), ls)),
        );
    }

    /// A viewport change: the aspect ratio follows, and a zero height is
    /// ignored.
    pub fn resize(&mut self, width: u32, height: u32)
        requires
            old(self).wf(),
        ensures
            final(self).wf(),
            height > 0 ==> final(self).aspect as int == fx_div_s(
                fx_from_int_s(width as int),
                fx_from_int_s(height as int),
            ),
            height == 0 ==> final(self).aspect == old(self).aspect,
            *final(self) == (Camera { aspect: final(self).aspect, ..*old(self) }),
    {
        if height > 0 {
            self.aspect = fx_div(fx_from_int(width as i64), fx_from_int(height as i64));
        }
    }

    /// The world-space picking ray under a pixel: the eye point and the unit
    /// direction through the pixel's point on the near plane.
    pub fn screen_to_world_ray(&self, screen_x: i64, screen_y: i64, width: i64, height: i64) -> (r:
        (V3, V3))
        ensures
            r.0 == eye_position_s(*self),
            r.1 == screen_ray_dir_s(
                *self,
                screen_x as int,
                screen_y as int,
                width as int,
                height as int,
            ),
    {
        let ndc_x: i64 = fx_sub(fx_div(fx_mul(2_000_000_000, screen_x), width), FX_ONE);
        let ndc_y: i64 = fx_sub(FX_ONE, fx_div(fx_mul(2_000_000_000, screen_y), height));
        let half: i64 = sdiv(self.fov, 2);
        let tan_half: i64 = fx_div(fx_sin(half), fx_cos(half));
        let basis: (V3, V3, V3) = cam_basis(self.theta, self.phi);
        let cx: i64 = fx_mul(fx_mul(ndc_x, tan_half), self.aspect);
        let cy: i64 = fx_mul(ndc_y, tan_half);
        let dir: V3 = v3_normalize(
            v3_add(v3_add(v3_scale(basis.0, cx), v3_scale(basis.1, cy)), basis.2),
        );
        (self.eye_position(), dir)
    }

    /// Intersects a picking ray with the horizontal plane at `plane_y`; a
    /// near-parallel ray or a hit behind the origin yields nothing, which
    /// callers treat as "ignore this interaction".
    pub fn ray_plane_intersection(&self, ray_origin: V3, ray_dir: V3, plane_y: i64) -> (r: Option<
        V3,
    >)
        ensures
            r == ray_plane_s(ray_origin, ray_dir, plane_y as int),
    {
        let mag_y: u64 = crate::fx::abs_mag(ray_dir.y);
        if mag_y < 1000 {
            return None;
        }
        let t: i64 = fx_div(fx_sub(plane_y, ray_origin.y), ray_dir.y);
        if t < 0 {
            return None;
        }
        Some(v3_add(ray_origin, v3_scale(ray_dir, t)))
    }
}

} // verus!
