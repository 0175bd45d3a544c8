use solarsim::camera::{Camera, MIN_DIST_SQ};
use solarsim::color::Color;
use solarsim::fixed::FP_ONE;
use solarsim::fragment::Fragment;
use solarsim::framebuffer::{Framebuffer, DEPTH_FAR};
use solarsim::mat::Mat4;
use solarsim::pipeline::{handle_input, render, InputState};
use solarsim::uniforms::Uniforms;
use solarsim::vec3::Vec3;
use solarsim::vertex::Vertex;

fn identity_uniforms() -> Uniforms {
    Uniforms::new(
        Mat4::identity(),
        Mat4::identity(),
        Mat4::identity(),
        Mat4::identity(),
        0,
        Vec::new(),
    )
}

fn screen_vertex(px: i64, py: i64, depth: i64) -> Vertex {
    // Under identity uniforms the vertex stage maps the model-space position
    // straight to screen space.
    Vertex::new(
        Vec3::new(px * FP_ONE, py * FP_ONE, depth),
        Vec3::new(0, 0, FP_ONE),
        0,
        0,
        Color::new(255, 255, 255),
    )
}

#[test]
fn full_screen_triangle_fills_every_pixel_with_the_constant_color() {
    let mut fb = Framebuffer::new(8, 8);
    let u = identity_uniforms();
    let verts = vec![
        screen_vertex(-20, -20, 1000),
        screen_vertex(40, -20, 1000),
        screen_vertex(-20, 40, 1000),
    ];
    render(&mut fb, &u, &verts, |_f: Fragment| Color::new(10, 20, 30));
    for i in 0..64 {
        assert_eq!(fb.buffer[i], 0x0A141E);
        assert_eq!(fb.zbuffer[i], 1000);
    }
}

#[test]
fn rerendering_farther_leaves_the_framebuffer_unchanged() {
    let mut fb = Framebuffer::new(8, 8);
    let u = identity_uniforms();
    let near = vec![
        screen_vertex(-20, -20, 1000),
        screen_vertex(40, -20, 1000),
        screen_vertex(-20, 40, 1000),
    ];
    render(&mut fb, &u, &near, |_f: Fragment| Color::new(10, 20, 30));
    let far = vec![
        screen_vertex(-20, -20, 5000),
        screen_vertex(40, -20, 5000),
        screen_vertex(-20, 40, 5000),
    ];
    render(&mut fb, &u, &far, |_f: Fragment| Color::new(200, 0, 0));
    for i in 0..64 {
        assert_eq!(fb.buffer[i], 0x0A141E);
        assert_eq!(fb.zbuffer[i], 1000);
    }
}

#[test]
fn nearer_body_overwrites_farther_body() {
    let mut fb = Framebuffer::new(8, 8);
    let u = identity_uniforms();
    let far = vec![
        screen_vertex(-20, -20, 5000),
        screen_vertex(40, -20, 5000),
        screen_vertex(-20, 40, 5000),
    ];
    render(&mut fb, &u, &far, |_f: Fragment| Color::new(200, 0, 0));
    let near = vec![
        screen_vertex(-20, -20, 1000),
        screen_vertex(40, -20, 1000),
        screen_vertex(-20, 40, 1000),
    ];
    render(&mut fb, &u, &near, |_f: Fragment| Color::new(10, 20, 30));
    for i in 0..64 {
        assert_eq!(fb.buffer[i], 0x0A141E);
        assert_eq!(fb.zbuffer[i], 1000);
    }
}

#[test]
fn incomplete_trailing_triple_is_ignored() {
    let mut fb = Framebuffer::new(8, 8);
    let u = identity_uniforms();
    let verts = vec![screen_vertex(-20, -20, 1000), screen_vertex(40, -20, 1000)];
    render(&mut fb, &u, &verts, |_f: Fragment| Color::new(10, 20, 30));
    for i in 0..64 {
        assert_eq!(fb.buffer[i], 0);
        assert_eq!(fb.zbuffer[i], DEPTH_FAR);
    }
}

#[test]
fn rendering_a_degenerate_triangle_changes_nothing() {
    let mut fb = Framebuffer::new(8, 8);
    fb.set_background_color(0x334455);
    fb.clear();
    let u = identity_uniforms();
    let verts = vec![
        screen_vertex(0, 0, 1000),
        screen_vertex(3, 3, 1000),
        screen_vertex(6, 6, 1000),
    ];
    render(&mut fb, &u, &verts, |_f: Fragment| Color::new(200, 0, 0));
    for i in 0..64 {
        assert_eq!(fb.buffer[i], 0x334455);
        assert_eq!(fb.zbuffer[i], DEPTH_FAR);
    }
}

#[test]
fn handle_input_with_no_keys_leaves_the_camera_alone() {
    let mut cam = Camera::new(
        Vec3::new(0, 0, 15 * FP_ONE),
        Vec3::new(0, 0, 0),
        Vec3::new(0, FP_ONE, 0),
    );
    let before = cam;
    let input = InputState {
        left: false,
        right: false,
        w: false,
        s: false,
        a: false,
        d: false,
        q: false,
        e: false,
        up: false,
        down: false,
    };
    handle_input(&mut cam, &input);
    assert_eq!(cam, before);
}

#[test]
fn handle_input_zoom_key_respects_the_floor() {
    let mut cam = Camera::new(
        Vec3::new(0, 0, 2 * FP_ONE),
        Vec3::new(0, 0, 0),
        Vec3::new(0, FP_ONE, 0),
    );
    let input = InputState {
        left: false,
        right: false,
        w: false,
        s: false,
        a: false,
        d: false,
        q: false,
        e: false,
        up: true,
        down: false,
    };
    for _ in 0..100 {
        handle_input(&mut cam, &input);
        let dx = cam.eye.x - cam.center.x;
        let dy = cam.eye.y - cam.center.y;
        let dz = cam.eye.z - cam.center.z;
        assert!(dx * dx + dy * dy + dz * dz >= MIN_DIST_SQ);
    }
}
