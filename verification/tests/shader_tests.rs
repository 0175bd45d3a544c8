use solarsim::color::Color;
use solarsim::fixed::FP_ONE;
use solarsim::fragment::Fragment;
use solarsim::mat::Mat4;
use solarsim::shaders::{
    black_and_white, fragment_shader, lava_shader, random_color_shader, shade, shade_sites,
    shader_earth, shader_jupiter, vertex_shader, ShaderKind,
};
use solarsim::uniforms::Uniforms;
use solarsim::vec3::Vec3;
use solarsim::vertex::Vertex;

fn lit_fragment() -> Fragment {
    Fragment::new(
        0,
        0,
        0,
        Vec3::new(0, 0, 0),
        Vec3::new(0, 0, FP_ONE),
        FP_ONE,
    )
}

#[test]
fn jupiter_dark_band_exact_color() {
    let f = lit_fragment();
    let c = shader_jupiter(&f, &vec![-FP_ONE]);
    assert_eq!((c.r, c.g, c.b), (225, 146, 69));
}

#[test]
fn earth_land_and_water_exact_colors() {
    let f = lit_fragment();
    let land = shader_earth(&f, &vec![FP_ONE, -FP_ONE]);
    assert_eq!((land.r, land.g, land.b), (100, 166, 66));
    let water = shader_earth(&f, &vec![-FP_ONE, -FP_ONE]);
    assert_eq!((water.r, water.g, water.b), (0, 33, 132));
}

#[test]
fn earth_full_cloud_cover_hides_the_surface() {
    let f = lit_fragment();
    // A cloud sample at the top of its range saturates the opacity remap.
    let land = shader_earth(&f, &vec![FP_ONE, FP_ONE]);
    let water = shader_earth(&f, &vec![-FP_ONE, FP_ONE]);
    assert_eq!((land.r, land.g, land.b), (water.r, water.g, water.b));
}

#[test]
fn lava_blends_between_dark_and_bright() {
    let f = lit_fragment();
    let dark = lava_shader(&f, &vec![-FP_ONE, -FP_ONE]);
    assert_eq!((dark.r, dark.g, dark.b), (130, 20, 0));
    let bright = lava_shader(&f, &vec![FP_ONE, FP_ONE]);
    assert_eq!((bright.r, bright.g, bright.b), (255, 240, 0));
    let default_shader = fragment_shader(&f, &vec![FP_ONE, FP_ONE]);
    assert_eq!((default_shader.r, default_shader.g, default_shader.b), (255, 240, 0));
}

#[test]
fn shade_is_deterministic_for_identical_arguments() {
    let f = Fragment::new(
        3,
        5,
        1234,
        Vec3::new(1000, -2000, 3000),
        Vec3::new(100, 200, FP_ONE),
        40000,
    );
    let kinds = [
        ShaderKind::Earth,
        ShaderKind::Jupiter,
        ShaderKind::Moon,
        ShaderKind::Venus,
        ShaderKind::Mercury,
        ShaderKind::Ring,
        ShaderKind::Lava,
        ShaderKind::Cloud,
        ShaderKind::Dalmata,
        ShaderKind::Cellular,
    ];
    let samples = vec![12345, -23456];
    for kind in kinds {
        let c1 = shade(kind, &f, &samples);
        let c2 = shade(kind, &f, &samples);
        assert_eq!(c1, c2);
        let s1 = shade_sites(kind, &f, 777);
        let s2 = shade_sites(kind, &f, 777);
        assert_eq!(s1, s2);
    }
}

#[test]
fn shade_sites_count_matches_sample_count() {
    let f = lit_fragment();
    assert_eq!(shade_sites(ShaderKind::Earth, &f, 0).len(), 2);
    assert_eq!(shade_sites(ShaderKind::Jupiter, &f, 0).len(), 1);
    assert_eq!(shade_sites(ShaderKind::Ring, &f, 0).len(), 0);
    assert_eq!(shade_sites(ShaderKind::Lava, &f, 0).len(), 2);
}

fn identity_uniforms() -> Uniforms {
    Uniforms::new(
        Mat4::identity(),
        Mat4::identity(),
        Mat4::identity(),
        Mat4::identity(),
        0,
        Vec::new(),
    )
}

#[test]
fn vertex_transform_is_pure() {
    let v = Vertex::new(
        Vec3::new(12345, -6789, 4 * FP_ONE),
        Vec3::new(0, FP_ONE, 0),
        11,
        22,
        Color::new(1, 2, 3),
    );
    let u = identity_uniforms();
    let t1 = vertex_shader(&v, &u);
    let t2 = vertex_shader(&v, &u);
    assert_eq!(t1, t2);
}

#[test]
fn identity_uniforms_leave_position_and_normal_unchanged() {
    let v = Vertex::new(
        Vec3::new(3 * FP_ONE, -2 * FP_ONE, FP_ONE),
        Vec3::new(0, FP_ONE, 0),
        0,
        0,
        Color::new(9, 9, 9),
    );
    let t = vertex_shader(&v, &identity_uniforms());
    assert_eq!(t.transformed_position, v.position);
    assert_eq!(t.transformed_normal, v.normal);
    assert_eq!(t.position, v.position);
}

#[test]
fn black_and_white_yields_black_or_white() {
    let f = lit_fragment();
    let c = black_and_white(&f, 98765);
    let is_black = (c.r, c.g, c.b) == (0, 0, 0);
    let is_white = (c.r, c.g, c.b) == (255, 255, 255);
    assert!(is_black || is_white);
}

#[test]
fn random_color_is_displayable_and_seed_deterministic() {
    let f = lit_fragment();
    let c1 = random_color_shader(&f, 5 * FP_ONE);
    let c2 = random_color_shader(&f, 5 * FP_ONE);
    assert!(c1.r >= 0 && c1.r <= 255);
    assert!(c1.g >= 0 && c1.g <= 255);
    assert!(c1.b >= 0 && c1.b <= 255);
    assert_eq!(c1, c2);
}
