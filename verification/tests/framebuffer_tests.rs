use solarsim::framebuffer::{Framebuffer, DEPTH_FAR};

#[test]
fn new_framebuffer_is_black_and_far() {
    let fb = Framebuffer::new(4, 3);
    assert_eq!(fb.width, 4);
    assert_eq!(fb.height, 3);
    assert_eq!(fb.buffer.len(), 12);
    assert_eq!(fb.zbuffer.len(), 12);
    for i in 0..12 {
        assert_eq!(fb.buffer[i], 0);
        assert_eq!(fb.zbuffer[i], DEPTH_FAR);
    }
}

#[test]
fn clear_resets_every_pixel_to_background_and_far_depth() {
    let mut fb = Framebuffer::new(5, 5);
    fb.set_background_color(0x123456);
    fb.set_current_color(0xFF0000);
    fb.point(2, 2, 100);
    fb.point(4, 0, 7);
    fb.clear();
    for i in 0..25 {
        assert_eq!(fb.buffer[i], 0x123456);
        assert_eq!(fb.zbuffer[i], DEPTH_FAR);
    }
}

#[test]
fn depth_ordering_near_write_wins_in_either_order() {
    // Nearer depth first, farther second: the farther write is refused.
    let mut fb = Framebuffer::new(3, 3);
    fb.set_current_color(0x00FF00);
    fb.point(1, 1, 10);
    fb.set_current_color(0x0000FF);
    fb.point(1, 1, 20);
    assert_eq!(fb.buffer[1 * 3 + 1], 0x00FF00);
    assert_eq!(fb.zbuffer[1 * 3 + 1], 10);

    // Farther depth first, nearer second: the nearer write overwrites.
    let mut fb2 = Framebuffer::new(3, 3);
    fb2.set_current_color(0x0000FF);
    fb2.point(1, 1, 20);
    fb2.set_current_color(0x00FF00);
    fb2.point(1, 1, 10);
    assert_eq!(fb2.buffer[1 * 3 + 1], 0x00FF00);
    assert_eq!(fb2.zbuffer[1 * 3 + 1], 10);
}

#[test]
fn point_out_of_bounds_is_a_no_op() {
    let mut fb = Framebuffer::new(2, 2);
    fb.set_current_color(0xABCDEF);
    fb.point(2, 0, 1);
    fb.point(0, 2, 1);
    fb.point(99, 99, 1);
    for i in 0..4 {
        assert_eq!(fb.buffer[i], 0);
        assert_eq!(fb.zbuffer[i], DEPTH_FAR);
    }
}

#[test]
fn equal_depth_does_not_overwrite() {
    let mut fb = Framebuffer::new(2, 2);
    fb.set_current_color(0x111111);
    fb.point(0, 0, 5);
    fb.set_current_color(0x222222);
    fb.point(0, 0, 5);
    assert_eq!(fb.buffer[0], 0x111111);
}
