use solarsim::camera::{Camera, MIN_DIST_SQ};
use solarsim::fixed::FP_ONE;
use solarsim::vec3::Vec3;

fn dist_sq(c: &Camera) -> i64 {
    let dx = c.eye.x - c.center.x;
    let dy = c.eye.y - c.center.y;
    let dz = c.eye.z - c.center.z;
    dx * dx + dy * dy + dz * dz
}

fn start_camera() -> Camera {
    Camera::new(
        Vec3::new(0, 0, 15 * FP_ONE),
        Vec3::new(0, 0, 0),
        Vec3::new(0, FP_ONE, 0),
    )
}

#[test]
fn repeated_zoom_in_never_crosses_the_minimum_distance() {
    let mut cam = start_camera();
    for _ in 0..200 {
        cam.zoom(6554);
        assert!(dist_sq(&cam) >= MIN_DIST_SQ);
    }
}

#[test]
fn repeated_negative_zoom_keeps_the_floor_too() {
    let mut cam = start_camera();
    // Zoom far out, then far in, checking the floor at every step.
    for _ in 0..50 {
        cam.zoom(-6554);
        assert!(dist_sq(&cam) >= MIN_DIST_SQ);
    }
    for _ in 0..500 {
        cam.zoom(6554);
        assert!(dist_sq(&cam) >= MIN_DIST_SQ);
    }
}

#[test]
fn zoom_in_reduces_distance_until_the_floor() {
    let mut cam = start_camera();
    let before = dist_sq(&cam);
    cam.zoom(6554);
    let after = dist_sq(&cam);
    assert!(after < before);
    assert!(after >= MIN_DIST_SQ);
}

#[test]
fn zoom_out_increases_distance() {
    let mut cam = start_camera();
    let before = dist_sq(&cam);
    cam.zoom(-6554);
    assert!(dist_sq(&cam) > before);
}

#[test]
fn move_center_translates_eye_and_center_together() {
    let mut cam = start_camera();
    let d = dist_sq(&cam);
    cam.move_center(Vec3::new(FP_ONE, -FP_ONE, 2 * FP_ONE));
    assert_eq!(cam.center.x, FP_ONE);
    assert_eq!(cam.center.y, -FP_ONE);
    assert_eq!(cam.center.z, 2 * FP_ONE);
    assert_eq!(cam.eye.x, FP_ONE);
    assert_eq!(cam.eye.y, -FP_ONE);
    assert_eq!(cam.eye.z, 17 * FP_ONE);
    assert_eq!(dist_sq(&cam), d);
}

#[test]
fn orbit_by_zero_angles_leaves_the_camera_alone() {
    let mut cam = start_camera();
    let before = cam;
    cam.orbit(0, 0);
    assert_eq!(cam, before);
}

#[test]
fn orbit_keeps_the_distance_floor_and_roughly_preserves_radius() {
    let mut cam = start_camera();
    let before = dist_sq(&cam);
    for _ in 0..100 {
        cam.orbit(4118, 0);
        let d = dist_sq(&cam);
        assert!(d >= MIN_DIST_SQ);
        // Fixed-point rounding may drift the radius slightly, but not wildly.
        assert!(d > before / 2 && d < before * 2);
    }
}
