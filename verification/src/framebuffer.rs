use vstd::prelude::*;

use vstd::pervasive::VecAdditionalExecFns;

verus! {

/// Depth-buffer sentinel: farther than any depth a fragment can carry.
pub const DEPTH_FAR: i64 = i64::MAX;

/// A color buffer and a same-size depth buffer. A pixel write is committed
/// only when the incoming depth is nearer than the stored one, and then color
/// and depth are written together.
pub struct Framebuffer {
    pub width: usize,
    pub height: usize,
    pub buffer: Vec<u32>,
    pub zbuffer: Vec<i64>,
    pub current_color: u32,
    pub background_color: u32,
}

/// Both buffers hold exactly `width * height` entries.
pub open spec fn fb_wf(fb: Framebuffer) -> bool {
    &&& fb.buffer@.len() == fb.width * fb.height
    &&& fb.zbuffer@.len() == fb.width * fb.height
}

/// Row-major index of pixel `(x, y)`.
pub open spec fn pix(fb: Framebuffer, x: int, y: int) -> int {
    y * fb.width + x
}

pub open spec fn color_at(fb: Framebuffer, x: int, y: int) -> u32 {
    fb.buffer@[pix(fb, x, y)]
}

pub open spec fn depth_at(fb: Framebuffer, x: int, y: int) -> i64 {
    fb.zbuffer@[pix(fb, x, y)]
}

/// The color buffer after a depth-tested write of color `c` at depth `d` to
/// index `i`: written only when `d` is nearer than the stored depth.
pub open spec fn spec_point_color(
    colors: Seq<u32>,
    depths: Seq<i64>,
    i: int,
    d: i64,
    c: u32,
) -> Seq<u32> {
    if d < depths[i] {
        colors.update(i, c)
    } else {
        colors
    }
}

/// The depth buffer after the same depth-tested write.
pub open spec fn spec_point_depth(depths: Seq<i64>, i: int, d: i64) -> Seq<i64> {
    if d < depths[i] {
        depths.update(i, d)
    } else {
        depths
    }
}

/// Depth ordering: two writes to the same pixel with depths `d1 < d2`, both
/// nearer than what the pixel held, leave the pixel holding the color
/// submitted with `d1` — in either call order.
pub proof fn lemma_depth_ordering(
    colors: Seq<u32>,
    depths: Seq<i64>,
    i: int,
    d1: i64,
    c1: u32,
    d2: i64,
    c2: u32,
)
    requires
        0 <= i < depths.len(),
        colors.len() == depths.len(),
        d1 < d2,
        d1 < depths[i],
    ensures
        spec_point_color(
            spec_point_color(colors, depths, i, d1, c1),
            spec_point_depth(depths, i, d1),
            i,
            d2,
            c2,
        )[i] == c1,
        spec_point_color(
            spec_point_color(colors, depths, i, d2, c2),
            spec_point_depth(depths, i, d2),
            i,
            d1,
            c1,
        )[i] == c1,
{
}

pub proof fn lemma_pix_in_bounds(fb: Framebuffer, x: int, y: int)
    requires
        fb_wf(fb),
        0 <= x < fb.width,
        0 <= y < fb.height,
    ensures
        0 <= pix(fb, x, y) < fb.buffer@.len(),
        pix(fb, x, y) < fb.width * fb.height,
{
    let w = fb.width as int;
    let h = fb.height as int;
    vstd::arithmetic::mul::lemma_mul_inequality(y + 1, h, w);
    assert((y + 1) * w == y * w + w) by (nonlinear_arith);
    vstd::arithmetic::mul::lemma_mul_nonnegative(y, w);
}

impl Framebuffer {
    /// A framebuffer of the given size, black, with all depths at the far
    /// sentinel.
    pub fn new(width: usize, height: usize) -> (fb: Framebuffer)
        requires
            width * height <= usize::MAX,
        ensures
            fb_wf(fb),
            fb.width == width,
            fb.height == height,
            fb.current_color == 0,
            fb.background_color == 0,
            forall|i: int| 0 <= i < fb.buffer@.len() ==> fb.buffer@[i] == 0u32,
            forall|i: int| 0 <= i < fb.zbuffer@.len() ==> fb.zbuffer@[i] == DEPTH_FAR,
    {
        proof {
            vstd::arithmetic::mul::lemma_mul_nonnegative(width as int, height as int);
        }
        let n: usize = width * height;
        let mut buffer: Vec<u32> = Vec::new();
        let mut zbuffer: Vec<i64> = Vec::new();
        let mut i: usize = 0;
        while i < n
            invariant
                i <= n,
                buffer@.len() == i,
                zbuffer@.len() == i,
                forall|j: int| 0 <= j < i ==> buffer@[j] == 0u32,
                forall|j: int| 0 <= j < i ==> zbuffer@[j] == DEPTH_FAR,
            decreases n - i,
        {
            buffer.push(0);
            zbuffer.push(DEPTH_FAR);
            i = i + 1;
        }
        Framebuffer { width, height, buffer, zbuffer, current_color: 0, background_color: 0 }
    }

    pub fn set_current_color(&mut self, color: u32)
        ensures
            *final(self) == (Framebuffer { current_color: color, ..*old(self) }),
    {
        self.current_color = color;
    }

    pub fn set_background_color(&mut self, color: u32)
        ensures
            *final(self) == (Framebuffer { background_color: color, ..*old(self) }),
    {
        self.background_color = color;
    }

    /// Reset every pixel to the background color and every depth to the far
    /// sentinel.
    pub fn clear(&mut self)
        requires
            fb_wf(*old(self)),
        ensures
            fb_wf(*final(self)),
            final(self).width == old(self).width,
            final(self).height == old(self).height,
            final(self).current_color == old(self).current_color,
            final(self).background_color == old(self).background_color,
            forall|i: int|
                0 <= i < final(self).buffer@.len() ==> final(self).buffer@[i] == final(
                    self).background_color,

            forall|i: int|
                0 <= i < final(self).zbuffer@.len() ==> final(self).zbuffer@[i] == DEPTH_FAR,
    {
        let n: usize = self.buffer.len();
        let mut i: usize = 0;
        while i < n
            invariant
                i <= n,
                self.buffer@.len() == n,
                self.zbuffer@.len() == n,
                self.width == old(self).width,
                self.height == old(self).height,
                self.current_color == old(self).current_color,
                self.background_color == old(self).background_color,
                fb_wf(*old(self)),
                n == old(self).buffer@.len(),
                forall|j: int| 0 <= j < i ==> self.buffer@[j] == self.background_color,
                forall|j: int| 0 <= j < i ==> self.zbuffer@[j] == DEPTH_FAR,
            decreases n - i,
        {
            let bg = self.background_color;
            self.buffer.set(i, bg);
            self.zbuffer.set(i, DEPTH_FAR);
            i = i + 1;
        }
    }

    /// Depth-tested write of the current draw color at `(x, y)`: a no-op when
    /// the pixel is out of bounds or the stored depth is nearer or equal.
    pub fn point(&mut self, x: usize, y: usize, depth: i64)
        requires
            fb_wf(*old(self)),
        ensures
            fb_wf(*final(self)),
            final(self).width == old(self).width,
            final(self).height == old(self).height,
            final(self).current_color == old(self).current_color,
            final(self).background_color == old(self).background_color,
            x < old(self).width && y < old(self).height ==> {
                &&& final(self).buffer@ == spec_point_color(
                    old(self).buffer@,
                    old(self).zbuffer@,
                    pix(*old(self), x as int, y as int),
                    depth,
                    old(self).current_color,
                )
                &&& final(self).zbuffer@ == spec_point_depth(
                    old(self).zbuffer@,
                    pix(*old(self), x as int, y as int),
                    depth,
                )
            },
            !(x < old(self).width && y < old(self).height) ==> *final(self) == *old(self),
    {
        if x < self.width && y < self.height {
            proof {
                lemma_pix_in_bounds(*self, x as int, y as int);
            }
            let n: usize = self.buffer.len();
            let idx: usize = y * self.width + x;
            if depth < self.zbuffer[idx] {
                let c = self.current_color;
                self.buffer.set(idx, c);
                self.zbuffer.set(idx, depth);
            }
        }
    }
}

} // verus!
