use starsim::camera::{Camera, MouseButton};
use starsim::fx::{fx_cos, fx_mul, FX_ONE};
use starsim::vec3::V3;

#[test]
fn scroll_at_ten_moves_target_distance_to_nine() {
    let mut cam = Camera::new();
    cam.target_distance = 10 * FX_ONE;
    cam.handle_scroll(FX_ONE);
    // 10 * (1 - 0.1) == 9.0 exactly, within bounds [0.1, 100]
    assert_eq!(cam.target_distance, 9 * FX_ONE);
}

#[test]
fn repeated_negative_scrolls_clamp_at_max_distance() {
    let mut cam = Camera::new();
    for _ in 0..200 {
        cam.handle_scroll(-FX_ONE);
    }
    assert_eq!(cam.target_distance, cam.max_distance);
    assert_eq!(cam.max_distance, 100 * FX_ONE);
}

#[test]
fn repeated_positive_scrolls_clamp_at_min_distance() {
    let mut cam = Camera::new();
    for _ in 0..2000 {
        cam.handle_scroll(FX_ONE);
    }
    assert_eq!(cam.target_distance, cam.min_distance);
}

#[test]
fn straight_down_ray_hits_the_origin() {
    let cam = Camera::new();
    let origin = V3::new(0, 5 * FX_ONE, 0);
    let dir = V3::new(0, -FX_ONE, 0);
    let hit = cam.ray_plane_intersection(origin, dir, 0);
    assert_eq!(hit, Some(V3::new(0, 0, 0)));
}

#[test]
fn upward_ray_misses_the_plane() {
    let cam = Camera::new();
    let origin = V3::new(0, 5 * FX_ONE, 0);
    let dir = V3::new(0, FX_ONE, 0);
    assert_eq!(cam.ray_plane_intersection(origin, dir, 0), None);
}

#[test]
fn near_parallel_ray_misses_the_plane() {
    let cam = Camera::new();
    let origin = V3::new(0, 5 * FX_ONE, 0);
    // |dir.y| below one millionth counts as parallel
    let dir = V3::new(FX_ONE, 999, 0);
    assert_eq!(cam.ray_plane_intersection(origin, dir, 0), None);
}

#[test]
fn oblique_ray_lands_where_the_algebra_says() {
    let cam = Camera::new();
    let origin = V3::new(FX_ONE, 2 * FX_ONE, 0);
    let dir = V3::new(FX_ONE, -FX_ONE, 0);
    // t = (0 - 2) / (-1) = 2, hit = (1 + 2, 0, 0)
    assert_eq!(cam.ray_plane_intersection(origin, dir, 0), Some(V3::new(3 * FX_ONE, 0, 0)));
}

#[test]
fn first_move_after_press_only_sets_the_baseline() {
    let mut cam = Camera::new();
    cam.handle_mouse_button(MouseButton::Left, true);
    assert!(cam.is_orbiting);
    let theta_before = cam.target_theta;
    cam.handle_mouse_move(100 * FX_ONE, 50 * FX_ONE);
    assert_eq!(cam.target_theta, theta_before);
    // the second move sees a delta of 10 pixels: theta -= 10 * 0.005
    cam.handle_mouse_move(110 * FX_ONE, 50 * FX_ONE);
    assert_eq!(cam.target_theta, theta_before - 50_000_000);
}

#[test]
fn release_drops_the_pointer_baseline() {
    let mut cam = Camera::new();
    cam.handle_mouse_button(MouseButton::Left, true);
    cam.handle_mouse_move(100 * FX_ONE, 50 * FX_ONE);
    cam.handle_mouse_button(MouseButton::Left, false);
    assert!(!cam.is_orbiting);
    assert_eq!(cam.last_mouse, None);
    let theta_before = cam.target_theta;
    // fresh baseline: no delta is applied on the next move
    cam.handle_mouse_button(MouseButton::Left, true);
    cam.handle_mouse_move(500 * FX_ONE, 500 * FX_ONE);
    assert_eq!(cam.target_theta, theta_before);
}

#[test]
fn elevation_clamps_short_of_the_poles() {
    let mut cam = Camera::new();
    cam.handle_mouse_button(MouseButton::Left, true);
    cam.handle_mouse_move(0, 0);
    cam.handle_mouse_move(0, 100_000 * FX_ONE);
    assert_eq!(cam.target_phi, 1_470_796_327);
    cam.handle_mouse_move(0, -200_000 * FX_ONE);
    assert_eq!(cam.target_phi, -1_470_796_327);
}

#[test]
fn update_moves_current_values_toward_targets() {
    let mut cam = Camera::new();
    cam.target_distance = 10 * FX_ONE;
    let d0 = cam.distance;
    // 8 * dt = 0.8: cover eighty percent of the gap
    cam.update(100_000_000);
    let d1 = cam.distance;
    assert!(d0 < d1 && d1 < 10 * FX_ONE);
    assert_eq!(d1, d0 + ((10 * FX_ONE - d0) / 10) * 8);
    // a large step is capped at the full gap and does not overshoot
    cam.update(FX_ONE);
    assert_eq!(cam.distance, 10 * FX_ONE);
}

#[test]
fn resize_updates_the_aspect_ratio() {
    let mut cam = Camera::new();
    cam.resize(800, 600);
    // 800/600 = 4/3
    assert_eq!(cam.aspect, 1_333_333_333);
    let kept = cam.aspect;
    cam.resize(800, 0);
    assert_eq!(cam.aspect, kept);
}

#[test]
fn eye_position_sits_distance_away_along_the_spherical_offset() {
    let mut cam = Camera::new();
    cam.theta = 0;
    cam.phi = 0;
    cam.distance = 2 * FX_ONE;
    cam.target = V3::new(FX_ONE, 0, 0);
    // offset = distance * (cos 0 sin 0, sin 0, cos 0 cos 0): x and y vanish
    let eye = cam.eye_position();
    let z = fx_mul(fx_mul(2 * FX_ONE, fx_cos(0)), fx_cos(0));
    assert_eq!(eye, V3::new(FX_ONE, 0, z));
    // and z is two units out, within the sine polynomial's error
    assert!((z - 2 * FX_ONE).abs() < 1_000_000);
}

#[test]
fn screen_center_ray_points_at_the_target() {
    let cam = Camera::new();
    let (eye, dir) = cam.screen_to_world_ray(
        400 * FX_ONE,
        300 * FX_ONE,
        800 * FX_ONE,
        600 * FX_ONE,
    );
    assert_eq!(eye, cam.eye_position());
    // the center ray runs opposite the eye offset, back toward the target
    let off = V3::new(eye.x - cam.target.x, eye.y - cam.target.y, eye.z - cam.target.z);
    // dir and -off are parallel: check componentwise sign and rough ratio
    assert!(dir.x * off.x <= 0 && dir.y * off.y <= 0 && dir.z * off.z <= 0);
    let dot = -(dir.x as i128 * off.x as i128 + dir.y as i128 * off.y as i128
        + dir.z as i128 * off.z as i128);
    // |dir| = 1, |off| = distance = 5: the raw product sum is close to
    // five at doubled fixed-point scale
    let five = 5 * FX_ONE as i128 * FX_ONE as i128;
    assert!(dot > five * 99 / 100 && dot < five * 101 / 100);
}
