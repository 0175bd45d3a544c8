use solarsim::color::Color;
use solarsim::fixed::FP_ONE;

#[test]
fn lerp_at_zero_returns_first_color() {
    let a = Color::new(13, 200, 77);
    let b = Color::new(250, 3, 128);
    let c = a.lerp(&b, 0);
    assert_eq!((c.r, c.g, c.b), (13, 200, 77));
}

#[test]
fn lerp_at_one_returns_second_color() {
    let a = Color::new(13, 200, 77);
    let b = Color::new(250, 3, 128);
    let c = a.lerp(&b, FP_ONE);
    assert_eq!((c.r, c.g, c.b), (250, 3, 128));
}

#[test]
fn lerp_endpoints_hold_for_arbitrary_clamped_colors() {
    let pairs = [
        ((0, 0, 0), (255, 255, 255)),
        ((255, 0, 255), (0, 255, 0)),
        ((1, 2, 3), (3, 2, 1)),
        ((100, 100, 100), (100, 100, 100)),
    ];
    for ((r1, g1, b1), (r2, g2, b2)) in pairs {
        let a = Color::new(r1, g1, b1);
        let b = Color::new(r2, g2, b2);
        let c0 = a.lerp(&b, 0);
        let c1 = a.lerp(&b, FP_ONE);
        assert_eq!((c0.r, c0.g, c0.b), (r1, g1, b1));
        assert_eq!((c1.r, c1.g, c1.b), (r2, g2, b2));
    }
}

#[test]
fn lerp_clamps_parameter_outside_unit_range() {
    let a = Color::new(10, 10, 10);
    let b = Color::new(20, 20, 20);
    let low = a.lerp(&b, -999999);
    let high = a.lerp(&b, FP_ONE * 3);
    assert_eq!((low.r, low.g, low.b), (10, 10, 10));
    assert_eq!((high.r, high.g, high.b), (20, 20, 20));
}

#[test]
fn lerp_midpoint_is_halfway() {
    let a = Color::new(0, 100, 200);
    let b = Color::new(100, 0, 250);
    let c = a.lerp(&b, FP_ONE / 2);
    assert_eq!((c.r, c.g, c.b), (50, 50, 225));
}

#[test]
fn clamp_limits_channels_to_display_range() {
    let c = Color::new(300, -5, 128).clamp();
    assert_eq!((c.r, c.g, c.b), (255, 0, 128));
}

#[test]
fn scaled_by_full_intensity_is_identity_and_by_zero_is_black() {
    let c = Color::new(130, 20, 0);
    let full = c.scaled(FP_ONE);
    let none = c.scaled(0);
    assert_eq!((full.r, full.g, full.b), (130, 20, 0));
    assert_eq!((none.r, none.g, none.b), (0, 0, 0));
}

#[test]
fn to_hex_packs_channels() {
    assert_eq!(Color::new(0x12, 0x34, 0x56).to_hex(), 0x123456);
    assert_eq!(Color::new(255, 255, 255).to_hex(), 0xFFFFFF);
    assert_eq!(Color::new(0, 0, 0).to_hex(), 0);
}

#[test]
fn from_fp_maps_unit_range_onto_channels() {
    let c = Color::from_fp(FP_ONE, 0, FP_ONE / 2);
    assert_eq!((c.r, c.g, c.b), (255, 0, 127));
    let clamped = Color::from_fp(FP_ONE * 10, -FP_ONE, 0);
    assert_eq!((clamped.r, clamped.g, clamped.b), (255, 0, 0));
}
