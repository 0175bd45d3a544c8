use solarsim::color::Color;
use solarsim::fixed::FP_ONE;
use solarsim::triangle::triangle;
use solarsim::vec3::Vec3;
use solarsim::vertex::Vertex;

fn screen_vertex(px: i64, py: i64, depth: i64) -> Vertex {
    let mut v = Vertex::new(
        Vec3::new(0, 0, 0),
        Vec3::new(0, 0, FP_ONE),
        0,
        0,
        Color::new(255, 255, 255),
    );
    v.transformed_position = Vec3::new(px * FP_ONE, py * FP_ONE, depth);
    v
}

#[test]
fn collinear_triangle_produces_zero_fragments() {
    let v0 = screen_vertex(0, 0, 100);
    let v1 = screen_vertex(5, 5, 100);
    let v2 = screen_vertex(10, 10, 100);
    let frags = triangle(&v0, &v1, &v2, 32, 32);
    assert_eq!(frags.len(), 0);
}

#[test]
fn repeated_vertex_produces_zero_fragments() {
    let v0 = screen_vertex(3, 4, 100);
    let v1 = screen_vertex(3, 4, 100);
    let v2 = screen_vertex(9, 1, 100);
    let frags = triangle(&v0, &v1, &v2, 32, 32);
    assert_eq!(frags.len(), 0);
}

#[test]
fn fragments_stay_inside_framebuffer_bounds() {
    let v0 = screen_vertex(-10, -10, 100);
    let v1 = screen_vertex(30, -10, 100);
    let v2 = screen_vertex(-10, 30, 100);
    let frags = triangle(&v0, &v1, &v2, 8, 8);
    assert!(frags.len() > 0);
    for f in &frags {
        assert!(f.x < 8);
        assert!(f.y < 8);
    }
}

#[test]
fn winding_does_not_change_coverage() {
    let v0 = screen_vertex(0, 0, 100);
    let v1 = screen_vertex(12, 0, 100);
    let v2 = screen_vertex(0, 12, 100);
    let ccw = triangle(&v0, &v1, &v2, 16, 16);
    let cw = triangle(&v0, &v2, &v1, 16, 16);
    assert_eq!(ccw.len(), cw.len());
}

#[test]
fn shared_edge_pixels_belong_to_exactly_one_triangle() {
    // A square split along its diagonal: every covered pixel of the square
    // must come from exactly one of the two triangles.
    let a = screen_vertex(0, 0, 100);
    let b = screen_vertex(10, 0, 100);
    let c = screen_vertex(0, 10, 100);
    let d = screen_vertex(10, 10, 100);
    let t1 = triangle(&a, &b, &c, 16, 16);
    let t2 = triangle(&b, &d, &c, 16, 16);
    let mut counts = [[0u32; 16]; 16];
    for f in t1.iter().chain(t2.iter()) {
        counts[f.y][f.x] += 1;
    }
    for y in 0..16 {
        for x in 0..16 {
            assert!(counts[y][x] <= 1, "pixel ({}, {}) drawn twice", x, y);
        }
    }
    // Pixels strictly inside the square lie in one of the triangles; the
    // diagonal pixels in particular are claimed by exactly one.
    for k in 1..10 {
        let x = k;
        let y = 10 - k;
        assert_eq!(counts[y][x], 1, "diagonal pixel ({}, {})", x, y);
    }
    for y in 1..9 {
        for x in 1..9 {
            assert_eq!(counts[y][x], 1, "interior pixel ({}, {})", x, y);
        }
    }
}

#[test]
fn depth_is_interpolated_between_corners() {
    let v0 = screen_vertex(0, 0, 0);
    let v1 = screen_vertex(8, 0, 8 * FP_ONE);
    let v2 = screen_vertex(0, 8, 0);
    let frags = triangle(&v0, &v1, &v2, 16, 16);
    assert!(frags.len() > 0);
    for f in &frags {
        assert!(f.depth >= 0);
        assert!(f.depth <= 8 * FP_ONE);
        if f.x == 0 {
            assert_eq!(f.depth, 0);
        }
    }
}
