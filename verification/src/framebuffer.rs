//! Color and depth buffers with a per-pixel depth test.

use vstd::prelude::*;
use crate::fx::{fx_clamp_s, fx_clamp, tdiv, FX_ONE};

verus! {

/// Depth value meaning "nothing rendered here yet"; larger than every
/// representable depth, so the first candidate always wins.
pub const DEPTH_FAR: i64 = 0x7FFF_FFFF_FFFF_FFFF;

/// Default background: a very dark space blue.
pub const BACKGROUND_COLOR: u32 = 0x000510;

/// A framebuffer owns one packed 0xAARRGGBB color entry and one depth entry
/// per pixel, in row-major order.
pub struct Framebuffer {
    pub width: usize,
    pub height: usize,
    pub buffer: Vec<u32>,
    pub zbuffer: Vec<i64>,
    pub background_color: u32,
}

/// Both buffers hold exactly one entry per pixel.
pub open spec fn fb_wf(fb: Framebuffer) -> bool {
    fb.buffer@.len() == fb.width * fb.height && fb.zbuffer@.len() == fb.width * fb.height
}

/// The row-major index of pixel (x, y).
pub open spec fn pix_s(fb: Framebuffer, x: int, y: int) -> int {
    y * fb.width + x
}

/// A row-major index stays inside a width-by-height buffer.
pub proof fn lemma_row_major_index(x: int, y: int, w: int, h: int)
    requires
        0 <= x < w,
        0 <= y < h,
    ensures
        0 <= y * w + x < w * h,
{
    assert(y * w + x < w * h) by (nonlinear_arith)
        requires
            0 <= x < w,
            0 <= y < h,
    ;
    assert(y * w >= 0) by (nonlinear_arith)
        requires
            y >= 0,
            w > 0,
    ;
}

/// Packs three 8-bit channels into 0xAARRGGBB with full alpha.
pub fn rgb_to_u32(r: u8, g: u8, b: u8) -> (c: u32)
    ensures
        c == (0xFF00_0000u32 | ((r as u32) << 16u32) | ((g as u32) << 8u32) | (b as u32)),
{
    0xFF00_0000u32 | ((r as u32) << 16u32) | ((g as u32) << 8u32) | (b as u32)
}

/// An intensity channel in [0, 1] mapped to a byte in [0, 255].
pub open spec fn channel_byte_s(v: int) -> int {
    tdiv(fx_clamp_s(v, 0, FX_ONE as int) * 255, 65536)
}

/// Clamp a fixed-point channel to [0, 1] and quantize it to a byte.
pub fn channel_byte(v: i64) -> (b: u8)
    ensures
        b == channel_byte_s(v as int),
{
    let c: i64 = fx_clamp(v, 0, FX_ONE);
    let q: i64 = (c * 255) / 65536;
    proof {
        vstd::arithmetic::div_mod::lemma_div_pos_is_pos(c * 255, 65536);
        vstd::arithmetic::div_mod::lemma_div_is_ordered(c * 255, (65536int) * 255, 65536);
        vstd::arithmetic::div_mod::lemma_div_multiples_vanish(255, 65536);
        assert(0 <= c * 255 <= 65536 * 255) by (nonlinear_arith)
            requires
                0 <= c <= 65536,
        ;
    }
    q as u8
}

/// Three fixed-point channels clamped, quantized and packed into a pixel.
pub open spec fn pack_fx_s(r: int, g: int, b: int) -> u32 {
    0xFF00_0000u32 | ((channel_byte_s(r) as u32) << 16u32)
        | ((channel_byte_s(g) as u32) << 8u32) | (channel_byte_s(b) as u32)
}

/// Packs three fixed-point channels in [0, 1] into a 0xAARRGGBB pixel.
pub fn rgb_fx_to_u32(r: i64, g: i64, b: i64) -> (c: u32)
    ensures
        c == pack_fx_s(r as int, g as int, b as int),
{
    rgb_to_u32(channel_byte(r), channel_byte(g), channel_byte(b))
}

impl Framebuffer {
    /// A framebuffer of the given size, all pixels black, all depths far.
    pub fn new(width: usize, height: usize) -> (fb: Framebuffer)
        requires
            width * height <= usize::MAX,
        ensures
            fb_wf(fb),
            fb.width == width,
            fb.height == height,
            fb.background_color == BACKGROUND_COLOR,
            forall|i: int| 0 <= i < fb.buffer@.len() ==> fb.buffer@[i] == 0u32,
            forall|i: int| 0 <= i < fb.zbuffer@.len() ==> fb.zbuffer@[i] == DEPTH_FAR,
    {
        proof {
            assert(width * height >= 0) by (nonlinear_arith);
        }
        let size: usize = width * height;
        let mut buffer: Vec<u32> = Vec::new();
        let mut zbuffer: Vec<i64> = Vec::new();
        let mut i: usize = 0;
        while i < size
            invariant
                i <= size,
                buffer@.len() == i,
                zbuffer@.len() == i,
                forall|j: int| 0 <= j < i ==> buffer@[j] == 0u32,
                forall|j: int| 0 <= j < i ==> zbuffer@[j] == DEPTH_FAR,
            decreases size - i,
        {
            buffer.push(0u32);
            zbuffer.push(DEPTH_FAR);
            i = i + 1;
        }
        Framebuffer { width, height, buffer, zbuffer, background_color: BACKGROUND_COLOR }
    }

    /// Reset every pixel to the background color and every depth to far.
    /// This is the once-per-frame depth reset.
    pub fn clear(&mut self)
        requires
            fb_wf(*old(self)),
        ensures
            fb_wf(*final(self)),
            final(self).width == old(self).width,
            final(self).height == old(self).height,
            final(self).background_color == old(self).background_color,
            forall|i: int| 0 <= i < final(self).buffer@.len()
                ==> final(self).buffer@[i] == old(self).background_color,
            forall|i: int| 0 <= i < final(self).zbuffer@.len()
                ==> final(self).zbuffer@[i] == DEPTH_FAR,
    {
        let n: usize = self.buffer.len();
        let bg: u32 = self.background_color;
        let mut i: usize = 0;
        while i < n
            invariant
                i <= n,
                n == self.buffer@.len(),
                n == self.zbuffer@.len(),
                self.width == old(self).width,
                self.height == old(self).height,
                self.background_color == old(self).background_color,
                bg == self.background_color,
                forall|j: int| 0 <= j < i ==> self.buffer@[j] == bg,
                forall|j: int| 0 <= j < i ==> self.zbuffer@[j] == DEPTH_FAR,
            decreases n - i,
        {
            self.buffer.set(i, bg);
            self.zbuffer.set(i, DEPTH_FAR);
            i = i + 1;
        }
    }

    /// Replace the background color used by `clear`.
    pub fn set_background_color(&mut self, color: u32)
        ensures
            final(self).background_color == color,
            final(self).width == old(self).width,
            final(self).height == old(self).height,
            final(self).buffer@ == old(self).buffer@,
            final(self).zbuffer@ == old(self).zbuffer@,
    {
        self.background_color = color;
    }

    /// The row-major buffer index of pixel (x, y).
    pub fn get_index(&self, x: usize, y: usize) -> (i: usize)
        requires
            x < self.width,
            y < self.height,
            fb_wf(*self),
        ensures
            i == pix_s(*self, x as int, y as int),
            i < self.buffer@.len(),
    {
        let n: usize = self.buffer.len();
        proof {
            lemma_row_major_index(x as int, y as int, self.width as int, self.height as int);
        }
        assert(y * self.width + x < n);
        y * self.width + x
    }

    /// Depth-tested pixel write: the pixel takes the new color and depth
    /// exactly when (x, y) is in bounds and z is strictly closer than the
    /// stored depth; color and depth always change together. Out-of-bounds
    /// writes are silently discarded.
    pub fn set_pixel(&mut self, x: usize, y: usize, z: i64, color: u32)
        requires
            fb_wf(*old(self)),
        ensures
            fb_wf(*final(self)),
            final(self).width == old(self).width,
            final(self).height == old(self).height,
            final(self).background_color == old(self).background_color,
            forall|i: int| 0 <= i < final(self).zbuffer@.len()
                ==> final(self).zbuffer@[i] == (if x < old(self).width && y < old(self).height
                        && i == pix_s(*old(self), x as int, y as int)
                        && z < old(self).zbuffer@[i] {
                        z as i64
                    } else {
                        old(self).zbuffer@[i]
                    }),
            forall|i: int| 0 <= i < final(self).buffer@.len()
                ==> final(self).buffer@[i] == (if x < old(self).width && y < old(self).height
                        && i == pix_s(*old(self), x as int, y as int)
                        && z < old(self).zbuffer@[i] {
                        color
                    } else {
                        old(self).buffer@[i]
                    }),
    {
        if x < self.width && y < self.height {
            let n: usize = self.buffer.len();
            proof {
                lemma_row_major_index(x as int, y as int, self.width as int, self.height as int);
            }
            assert(y * self.width + x < n);
            let index: usize = y * self.width + x;
            if z < self.zbuffer[index] {
                self.zbuffer.set(index, z);
                self.buffer.set(index, color);
            }
        }
    }

    /// Unconditional pixel write without a depth test, for 2D overlays such
    /// as orbit lines. Out-of-bounds writes are silently discarded.
    pub fn set_pixel_no_depth(&mut self, x: usize, y: usize, color: u32)
        requires
            fb_wf(*old(self)),
        ensures
            fb_wf(*final(self)),
            final(self).width == old(self).width,
            final(self).height == old(self).height,
            final(self).background_color == old(self).background_color,
            final(self).zbuffer@ == old(self).zbuffer@,
            forall|i: int| 0 <= i < final(self).buffer@.len()
                ==> final(self).buffer@[i] == (if x < old(self).width && y < old(self).height
                        && i == pix_s(*old(self), x as int, y as int) {
                        color
                    } else {
                        old(self).buffer@[i]
                    }),
    {
        if x < self.width && y < self.height {
            let n: usize = self.buffer.len();
            proof {
                lemma_row_major_index(x as int, y as int, self.width as int, self.height as int);
            }
            assert(y * self.width + x < n);
            let index: usize = y * self.width + x;
            self.buffer.set(index, color);
        }
    }
}

} // verus!
