use vstd::prelude::*;

use crate::camera::{cam_wf, spec_moved, spec_orbited, spec_zoomed, Camera};
use crate::color::{spec_color_clamped, Color};
use crate::fragment::{frag_in_sat, Fragment};
use crate::framebuffer::{fb_wf, Framebuffer};
use crate::uniforms::{uniforms_wf, Uniforms};
use crate::shaders::{spec_vertex_shader, vertex_shader};
use crate::triangle::{spec_triangle_frags, triangle};
use crate::vec3::Vec3;
use crate::vertex::{vertex_in_sat, Vertex};

verus! {

/// Orbit step per frame with a key held, fixed-point radians (pi / 50).
pub const ROT_SPEED_FP: i64 = 4118;

/// Pan step per frame with a key held, fixed point (1.0).
pub const MOVE_SPEED_FP: i64 = 65536;

/// Zoom step per frame with a key held, fixed point (0.1).
pub const ZOOM_SPEED_FP: i64 = 6554;

/// The fragments the k-th consecutive vertex triple contributes to one
/// render call: its three vertices through the vertex stage, rasterized
/// against the framebuffer bounds.
#[verifier::opaque]
pub open spec fn spec_render_tri_frags(
    va: Seq<Vertex>,
    u: Uniforms,
    k: int,
    width: int,
    height: int,
) -> Seq<Fragment> {
    spec_triangle_frags(
        spec_vertex_shader(va[3 * k], u),
        spec_vertex_shader(va[3 * k + 1], u),
        spec_vertex_shader(va[3 * k + 2], u),
        width,
        height,
    )
}

/// An emitted fragment has been through the depth test: the depth its pixel
/// ends with is no farther than the fragment's own.
pub open spec fn spec_frag_settled(fb0: Framebuffer, fb1: Framebuffer, f: Fragment) -> bool {
    &&& f.x < fb0.width
    &&& f.y < fb0.height
    &&& fb1.zbuffer@[f.y * fb0.width + f.x] <= f.depth
}

/// Pixel `p` holds a committed write of fragment `f`: the fragment lies at
/// `p`, its depth beat the depth the buffer held before the call and is now
/// stored, and the stored color is the clamped, packed color the shader
/// returned for that fragment.
pub open spec fn spec_committed_write<F: Fn(Fragment) -> Color>(
    shader_fn: F,
    fb0: Framebuffer,
    fb1: Framebuffer,
    f: Fragment,
    p: int,
) -> bool {
    &&& f.y * fb0.width + f.x == p
    &&& f.depth < fb0.zbuffer@[p]
    &&& fb1.zbuffer@[p] == f.depth
    &&& exists|shaded: Color|
        #[trigger] call_ensures(shader_fn, (f,), shaded) && fb1.buffer@[p] as int
            == spec_color_clamped(shaded).r * 0x10000 + spec_color_clamped(shaded).g * 0x100
            + spec_color_clamped(shaded).b
}

/// Render one body: transform every vertex, assemble consecutive vertex
/// triples into triangles, rasterize them, and shade and depth-test every
/// emitted fragment into the framebuffer. The contract pins the outcome:
/// every emitted fragment's pixel ends no farther than that fragment's
/// depth; a pixel changes only to the committed write of an emitted
/// fragment; depths never increase; and a color changes only together with a
/// strict depth decrease.
#[verifier::rlimit(100)]
pub fn render<F: Fn(Fragment) -> Color>(
    fb: &mut Framebuffer,
    uniforms: &Uniforms,
    vertex_array: &Vec<Vertex>,
    shader_fn: F,
)
    requires
        fb_wf(*old(fb)),
        old(fb).width <= 1048576,
        old(fb).height <= 1048576,
        uniforms_wf(*uniforms),
        forall|k: int| 0 <= k < vertex_array@.len() ==> vertex_in_sat(#[trigger] vertex_array@[k]),
        forall|f: Fragment| frag_in_sat(f) ==> call_requires(shader_fn, (f,)),
    ensures
        fb_wf(*final(fb)),
        final(fb).width == old(fb).width,
        final(fb).height == old(fb).height,
        final(fb).background_color == old(fb).background_color,
        forall|i: int|
            0 <= i < old(fb).zbuffer@.len() ==> #[trigger] final(fb).zbuffer@[i] <= old(
                fb,
            ).zbuffer@[i],
        forall|i: int|
            0 <= i < old(fb).zbuffer@.len() && #[trigger] final(fb).zbuffer@[i] == old(
                fb,
            ).zbuffer@[i] ==> final(fb).buffer@[i] == old(fb).buffer@[i],
        forall|k: int, j: int|
            0 <= k < vertex_array@.len() as int / 3 && 0 <= j < spec_render_tri_frags(
                vertex_array@,
                *uniforms,
                k,
                old(fb).width as int,
                old(fb).height as int,
            ).len() ==> spec_frag_settled(
                *old(fb),
                *final(fb),
                #[trigger] spec_render_tri_frags(
                    vertex_array@,
                    *uniforms,
                    k,
                    old(fb).width as int,
                    old(fb).height as int,
                )[j],
            ),
        forall|p: int|
            0 <= p < old(fb).zbuffer@.len() && #[trigger] final(fb).zbuffer@[p] != old(
                fb,
            ).zbuffer@[p] ==> exists|k: int, j: int|
                0 <= k < vertex_array@.len() as int / 3 && 0 <= j < spec_render_tri_frags(
                    vertex_array@,
                    *uniforms,
                    k,
                    old(fb).width as int,
                    old(fb).height as int,
                ).len() && spec_committed_write(
                    shader_fn,
                    *old(fb),
                    *final(fb),
                    #[trigger] spec_render_tri_frags(
                        vertex_array@,
                        *uniforms,
                        k,
                        old(fb).width as int,
                        old(fb).height as int,
                    )[j],
                    p,
                ),
{
    let n = vertex_array.len();
    let ghost w = old(fb).width as int;
    let ghost h = old(fb).height as int;
    let mut transformed: Vec<Vertex> = Vec::new();
    let mut k: usize = 0;
    while k < n
        invariant
            n == vertex_array@.len(),
            uniforms_wf(*uniforms),
            forall|j: int|
                0 <= j < vertex_array@.len() ==> vertex_in_sat(#[trigger] vertex_array@[j]),
            k <= n,
            transformed@.len() == k,
            forall|j: int| 0 <= j < k ==> vertex_in_sat(#[trigger] transformed@[j]),
            forall|j: int|
                0 <= j < k ==> #[trigger] transformed@[j] == spec_vertex_shader(
                    vertex_array@[j],
                    *uniforms,
                ),
        decreases n - k,
    {
        let tv = vertex_shader(&vertex_array[k], uniforms);
        transformed.push(tv);
        k = k + 1;
    }
    let mut i: usize = 0;
    let mut kk: usize = 0;
    while n >= 3 && i < n - 2
        invariant
            i <= n,
            i == 3 * kk,
            n == transformed@.len(),
            n == vertex_array@.len(),
            w == old(fb).width as int,
            h == old(fb).height as int,
            fb.buffer@.len() == old(fb).buffer@.len(),
            fb.zbuffer@.len() == old(fb).zbuffer@.len(),
            forall|j: int| 0 <= j < n ==> vertex_in_sat(#[trigger] transformed@[j]),
            forall|j: int|
                0 <= j < n ==> #[trigger] transformed@[j] == spec_vertex_shader(
                    vertex_array@[j],
                    *uniforms,
                ),
            fb_wf(*fb),
            fb.width == old(fb).width,
            fb.height == old(fb).height,
            fb.background_color == old(fb).background_color,
            fb.width <= 1048576,
            fb.height <= 1048576,
            forall|p: int|
                0 <= p < old(fb).zbuffer@.len() ==> #[trigger] fb.zbuffer@[p] <= old(
                    fb,
                ).zbuffer@[p],
            forall|p: int|
                0 <= p < old(fb).zbuffer@.len() && #[trigger] fb.zbuffer@[p] == old(
                    fb,
                ).zbuffer@[p] ==> fb.buffer@[p] == old(fb).buffer@[p],
            forall|f: Fragment| frag_in_sat(f) ==> call_requires(shader_fn, (f,)),
            forall|k2: int, j2: int|
                0 <= k2 < kk && 0 <= j2 < spec_render_tri_frags(
                    vertex_array@,
                    *uniforms,
                    k2,
                    w,
                    h,
                ).len() ==> spec_frag_settled(
                    *old(fb),
                    *fb,
                    #[trigger] spec_render_tri_frags(vertex_array@, *uniforms, k2, w, h)[j2],
                ),
            forall|p: int|
                0 <= p < old(fb).zbuffer@.len() && #[trigger] fb.zbuffer@[p] != old(
                    fb,
                ).zbuffer@[p] ==> exists|k2: int, j2: int|
                    0 <= k2 < kk && 0 <= j2 < spec_render_tri_frags(
                        vertex_array@,
                        *uniforms,
                        k2,
                        w,
                        h,
                    ).len() && spec_committed_write(
                        shader_fn,
                        *old(fb),
                        *fb,
                        #[trigger] spec_render_tri_frags(vertex_array@, *uniforms, k2, w, h)[j2],
                        p,
                    ),
        decreases n - i,
    {
        let fragments = triangle(
            &transformed[i],
            &transformed[i + 1],
            &transformed[i + 2],
            fb.width,
            fb.height,
        );
        proof {
            reveal(spec_render_tri_frags);
            assert(fragments@ == spec_render_tri_frags(
                vertex_array@,
                *uniforms,
                kk as int,
                w,
                h,
            ));
        }
        let m = fragments.len();
        let mut j: usize = 0;
        while j < m
            invariant
                m == fragments@.len(),
                fragments@ == spec_render_tri_frags(vertex_array@, *uniforms, kk as int, w, h),
                n == vertex_array@.len(),
                i == 3 * kk,
                i <= n,
                n >= 3 && i < n - 2,
                w == old(fb).width as int,
                h == old(fb).height as int,
                forall|q: int|
                    0 <= q < m ==> frag_in_sat(#[trigger] fragments@[q]) && fragments@[q].x
                        < fb.width && fragments@[q].y < fb.height,
                j <= m,
                fb_wf(*fb),
                fb.buffer@.len() == old(fb).buffer@.len(),
                fb.zbuffer@.len() == old(fb).zbuffer@.len(),
                fb.width == old(fb).width,
                fb.height == old(fb).height,
                fb.background_color == old(fb).background_color,
                fb.width <= 1048576,
                fb.height <= 1048576,
                forall|p: int|
                    0 <= p < old(fb).zbuffer@.len() ==> #[trigger] fb.zbuffer@[p] <= old(
                        fb,
                    ).zbuffer@[p],
                forall|p: int|
                    0 <= p < old(fb).zbuffer@.len() && #[trigger] fb.zbuffer@[p] == old(
                        fb,
                    ).zbuffer@[p] ==> fb.buffer@[p] == old(fb).buffer@[p],
                forall|f: Fragment| frag_in_sat(f) ==> call_requires(shader_fn, (f,)),
                forall|k2: int, j2: int|
                    0 <= k2 <= kk && 0 <= j2 < spec_render_tri_frags(
                        vertex_array@,
                        *uniforms,
                        k2,
                        w,
                        h,
                    ).len() && (k2 == kk ==> j2 < j) ==> spec_frag_settled(
                        *old(fb),
                        *fb,
                        #[trigger] spec_render_tri_frags(vertex_array@, *uniforms, k2, w, h)[j2],
                    ),
                forall|p: int|
                    0 <= p < old(fb).zbuffer@.len() && #[trigger] fb.zbuffer@[p] != old(
                        fb,
                    ).zbuffer@[p] ==> exists|k2: int, j2: int|
                        0 <= k2 <= kk && 0 <= j2 < spec_render_tri_frags(
                            vertex_array@,
                            *uniforms,
                            k2,
                            w,
                            h,
                        ).len() && (k2 == kk ==> j2 < j) && spec_committed_write(
                            shader_fn,
                            *old(fb),
                            *fb,
                            #[trigger] spec_render_tri_frags(
                                vertex_array@,
                                *uniforms,
                                k2,
                                w,
                                h,
                            )[j2],
                            p,
                        ),
            decreases m - j,
        {
            let frag = fragments[j];
            let shaded = shader_fn(frag);
            let color = shaded.clamp().to_hex();
            let ghost prev = *fb;
            fb.set_current_color(color);
            let ghost mid = *fb;
            fb.point(frag.x, frag.y, frag.depth);
            proof {
                crate::framebuffer::lemma_pix_in_bounds(mid, frag.x as int, frag.y as int);
                let idx = crate::framebuffer::pix(mid, frag.x as int, frag.y as int);
                let wrote = frag.depth < mid.zbuffer@[idx];
                if wrote {
                    assert(fb.zbuffer@ == mid.zbuffer@.update(idx, frag.depth));
                    assert(fb.buffer@ == mid.buffer@.update(idx, mid.current_color));
                }
                assert forall|p: int| 0 <= p < prev.zbuffer@.len() implies #[trigger] fb.zbuffer@[p]
                    <= prev.zbuffer@[p] && (fb.zbuffer@[p] == prev.zbuffer@[p]
                    ==> fb.buffer@[p] == prev.buffer@[p]) by {}
                let ghost fseq = spec_render_tri_frags(vertex_array@, *uniforms, kk as int, w, h);
                assert(frag == fseq[j as int]);
                assert(spec_frag_settled(*old(fb), *fb, frag)) by {
                    if !wrote {
                        assert(fb.zbuffer@[idx] == mid.zbuffer@[idx]);
                    }
                }
                assert forall|k2: int, j2: int|
                    0 <= k2 <= kk && 0 <= j2 < spec_render_tri_frags(
                        vertex_array@,
                        *uniforms,
                        k2,
                        w,
                        h,
                    ).len() && (k2 == kk ==> j2 < j + 1) implies spec_frag_settled(
                    *old(fb),
                    *fb,
                    #[trigger] spec_render_tri_frags(vertex_array@, *uniforms, k2, w, h)[j2],
                ) by {
                    let f2 = spec_render_tri_frags(vertex_array@, *uniforms, k2, w, h)[j2];
                    if k2 == kk as int && j2 == j as int {
                        assert(spec_frag_settled(*old(fb), *fb, f2));
                    } else {
                        assert(spec_frag_settled(*old(fb), prev, f2));
                        crate::framebuffer::lemma_pix_in_bounds(prev, f2.x as int, f2.y as int);
                        assert(fb.zbuffer@[f2.y * old(fb).width + f2.x] <= prev.zbuffer@[f2.y * old(
                            fb,
                        ).width + f2.x]);
                    }
                }
                assert forall|p: int|
                    0 <= p < old(fb).zbuffer@.len() && #[trigger] fb.zbuffer@[p] != old(
                        fb,
                    ).zbuffer@[p] implies exists|k2: int, j2: int|
                    0 <= k2 <= kk && 0 <= j2 < spec_render_tri_frags(
                        vertex_array@,
                        *uniforms,
                        k2,
                        w,
                        h,
                    ).len() && (k2 == kk ==> j2 < j + 1) && spec_committed_write(
                    shader_fn,
                    *old(fb),
                    *fb,
                    #[trigger] spec_render_tri_frags(vertex_array@, *uniforms, k2, w, h)[j2],
                    p,
                ) by {
                    if wrote && p == idx {
                        assert(call_ensures(shader_fn, (frag,), shaded));
                        assert(fb.buffer@[idx] == mid.current_color);
                        assert(mid.current_color as int == spec_color_clamped(shaded).r * 0x10000
                            + spec_color_clamped(shaded).g * 0x100 + spec_color_clamped(shaded).b);
                        assert(frag.depth < old(fb).zbuffer@[idx]);
                        assert(spec_committed_write(
                            shader_fn,
                            *old(fb),
                            *fb,
                            spec_render_tri_frags(
                                vertex_array@,
                                *uniforms,
                                kk as int,
                                w,
                                h,
                            )[j as int],
                            p,
                        ));
                    } else {
                        assert(fb.zbuffer@[p] == prev.zbuffer@[p] && fb.buffer@[p]
                            == prev.buffer@[p]);
                        assert(prev.zbuffer@[p] != old(fb).zbuffer@[p]);
                        let (k2, j2) = choose|k2: int, j2: int|
                            0 <= k2 <= kk && 0 <= j2 < spec_render_tri_frags(
                                vertex_array@,
                                *uniforms,
                                k2,
                                w,
                                h,
                            ).len() && (k2 == kk ==> j2 < j) && spec_committed_write(
                                shader_fn,
                                *old(fb),
                                prev,
                                #[trigger] spec_render_tri_frags(
                                    vertex_array@,
                                    *uniforms,
                                    k2,
                                    w,
                                    h,
                                )[j2],
                                p,
                            );
                        let f2 = spec_render_tri_frags(vertex_array@, *uniforms, k2, w, h)[j2];
                        let shaded2 = choose|shaded2: Color|
                            #[trigger] call_ensures(shader_fn, (f2,), shaded2) && prev.buffer@[p]
                                as int == spec_color_clamped(shaded2).r * 0x10000
                                + spec_color_clamped(shaded2).g * 0x100 + spec_color_clamped(
                                shaded2,
                            ).b;
                        assert(call_ensures(shader_fn, (f2,), shaded2) && fb.buffer@[p] as int
                            == spec_color_clamped(shaded2).r * 0x10000 + spec_color_clamped(
                            shaded2,
                        ).g * 0x100 + spec_color_clamped(shaded2).b);
                        assert(spec_committed_write(shader_fn, *old(fb), *fb, f2, p));
                    }
                }
            }
            j = j + 1;
        }
        i = i + 3;
        kk = kk + 1;
    }
    proof {
        vstd::arithmetic::div_mod::lemma_fundamental_div_mod(n as int, 3);
        if n >= 3 {
            assert(3 * (kk as int) >= n - 2);
        }
        assert(kk as int == n as int / 3);
    }
}

/// The keys the frame loop polls, as one per-iteration snapshot.
#[derive(Clone, Copy, PartialEq, Eq, Structural, Debug)]
pub struct InputState {
    pub left: bool,
    pub right: bool,
    pub w: bool,
    pub s: bool,
    pub a: bool,
    pub d: bool,
    pub q: bool,
    pub e: bool,
    pub up: bool,
    pub down: bool,
}

/// The pan vector one input snapshot asks for.
pub open spec fn spec_input_movement(input: InputState) -> Vec3 {
    let mx = (if input.a {
        -MOVE_SPEED_FP as int
    } else {
        0int
    }) + (if input.d {
        MOVE_SPEED_FP as int
    } else {
        0int
    });
    let my = (if input.q {
        MOVE_SPEED_FP as int
    } else {
        0int
    }) + (if input.e {
        -MOVE_SPEED_FP as int
    } else {
        0int
    });
    Vec3 { x: mx as i64, y: my as i64, z: 0 }
}

/// The camera after one input snapshot: orbit keys first, then the pan (when
/// any movement key is held), then the zoom keys.
pub open spec fn spec_handle_input(c: Camera, input: InputState) -> Camera {
    let c1 = if input.left {
        spec_orbited(c, ROT_SPEED_FP as int, 0)
    } else {
        c
    };
    let c2 = if input.right {
        spec_orbited(c1, -ROT_SPEED_FP as int, 0)
    } else {
        c1
    };
    let c3 = if input.w {
        spec_orbited(c2, 0, -ROT_SPEED_FP as int)
    } else {
        c2
    };
    let c4 = if input.s {
        spec_orbited(c3, 0, ROT_SPEED_FP as int)
    } else {
        c3
    };
    let mv = spec_input_movement(input);
    let c5 = if mv.x != 0 || mv.y != 0 {
        spec_moved(c4, mv)
    } else {
        c4
    };
    let c6 = if input.up {
        spec_zoomed(c5, ZOOM_SPEED_FP as int)
    } else {
        c5
    };
    if input.down {
        spec_zoomed(c6, -ZOOM_SPEED_FP as int)
    } else {
        c6
    }
}

/// Apply one frame's key snapshot to the camera: orbit, pan and zoom steps.
pub fn handle_input(camera: &mut Camera, input: &InputState)
    requires
        cam_wf(*old(camera)),
    ensures
        *final(camera) == spec_handle_input(*old(camera), *input),
        cam_wf(*final(camera)),
{
    if input.left {
        camera.orbit(ROT_SPEED_FP, 0);
    }
    if input.right {
        camera.orbit(-ROT_SPEED_FP, 0);
    }
    if input.w {
        camera.orbit(0, -ROT_SPEED_FP);
    }
    if input.s {
        camera.orbit(0, ROT_SPEED_FP);
    }
    let mut mx: i64 = 0;
    let mut my: i64 = 0;
    if input.a {
        mx = mx - MOVE_SPEED_FP;
    }
    if input.d {
        mx = mx + MOVE_SPEED_FP;
    }
    if input.q {
        my = my + MOVE_SPEED_FP;
    }
    if input.e {
        my = my - MOVE_SPEED_FP;
    }
    if mx != 0 || my != 0 {
        camera.move_center(Vec3 { x: mx, y: my, z: 0 });
    }
    if input.up {
        camera.zoom(ZOOM_SPEED_FP);
    }
    if input.down {
        camera.zoom(-ZOOM_SPEED_FP);
    }
}

} // verus!
