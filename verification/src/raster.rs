//! Triangle rasterization: screen mapping, edge functions, barycentric
//! weights, depth-tested scan conversion, and line drawing.

use vstd::prelude::*;
use crate::fx::{
    fx_wf, sat, tdiv, fx_add_s, fx_sub_s, fx_mul_s, fx_add, fx_sub, fx_mul, fx_sat, FX_ONE,
    FX_HALF, FX_SCALE, FX_LIM,
};
use crate::vec3::{Vec3, v_wf, vnorm_s, vsub_s, vcross_s, vdot_s};
use crate::vertex::{Vertex, vert_wf, Color3, TransformedVertex, tvert_wf};
use crate::framebuffer::{Framebuffer, fb_wf, rgb_fx_to_u32, pack_fx_s};
use crate::shaders::{ShaderType, FragmentData, apply_shader_s, apply_shader};

verus! {

/// Largest screen dimension the rasterizer accepts, in pixels.
pub const MAX_DIM: usize = 32768;

/// NDC x mapped to a pixel column: (x + 1) * 0.5 * width, truncated.
pub open spec fn screen_x_s(x: int, w: int) -> int {
    tdiv(fx_mul_s(fx_mul_s(fx_add_s(x, FX_ONE as int), FX_HALF as int), w * FX_SCALE), FX_SCALE as int)
}

/// NDC y mapped to a pixel row (y points up, rows grow down):
/// (1 - y) * 0.5 * height, truncated.
pub open spec fn screen_y_s(y: int, h: int) -> int {
    tdiv(fx_mul_s(fx_mul_s(fx_sub_s(FX_ONE as int, y), FX_HALF as int), h * FX_SCALE), FX_SCALE as int)
}

/// Truncating a well-formed scalar to whole units lands within +/- 32768.
proof fn lemma_fx_to_pixel_bound(v: int)
    requires
        -FX_LIM <= v <= FX_LIM,
    ensures
        -32768 <= tdiv(v, FX_SCALE as int) <= 32768,
{
    if v >= 0 {
        vstd::arithmetic::div_mod::lemma_div_pos_is_pos(v, FX_SCALE as int);
        vstd::arithmetic::div_mod::lemma_div_is_ordered(v, FX_LIM as int, FX_SCALE as int);
        assert(FX_LIM as int / FX_SCALE as int == 32768);
    } else {
        vstd::arithmetic::div_mod::lemma_div_pos_is_pos(-v, FX_SCALE as int);
        vstd::arithmetic::div_mod::lemma_div_is_ordered(-v, FX_LIM as int, FX_SCALE as int);
        assert(FX_LIM as int / FX_SCALE as int == 32768);
    }
}

/// Map an NDC position to integer pixel coordinates.
pub fn to_screen(pos: &Vec3, width: usize, height: usize) -> (p: (i64, i64))
    requires
        v_wf(*pos),
        width <= MAX_DIM,
        height <= MAX_DIM,
    ensures
        p.0 == screen_x_s(pos.x as int, width as int),
        p.1 == screen_y_s(pos.y as int, height as int),
        -32768 <= p.0 <= 32768,
        -32768 <= p.1 <= 32768,
{
    let wf: i64 = (width as i64) * FX_SCALE;
    let hf: i64 = (height as i64) * FX_SCALE;
    let sx: i64 = fx_mul(fx_mul(fx_add(pos.x, FX_ONE), FX_HALF), wf);
    let sy: i64 = fx_mul(fx_mul(fx_sub(FX_ONE, pos.y), FX_HALF), hf);
    proof {
        lemma_fx_to_pixel_bound(sx as int);
        lemma_fx_to_pixel_bound(sy as int);
    }
    let px: i64 = sx / FX_SCALE;
    let py: i64 = sy / FX_SCALE;
    (px, py)
}

/// Map an NDC position to integer pixel coordinates (alias used by the
/// flat-shaded path).
pub fn to_screen_coords(pos: &Vec3, width: usize, height: usize) -> (p: (i64, i64))
    requires
        v_wf(*pos),
        width <= MAX_DIM,
        height <= MAX_DIM,
    ensures
        p.0 == screen_x_s(pos.x as int, width as int),
        p.1 == screen_y_s(pos.y as int, height as int),
        -32768 <= p.0 <= 32768,
        -32768 <= p.1 <= 32768,
{
    to_screen(pos, width, height)
}

/// The edge function: twice the signed area of the triangle (a, b, p);
/// positive on one side of the directed line a->b, negative on the other.
pub open spec fn edge_s(ax: int, ay: int, bx: int, by: int, px: int, py: int) -> int {
    (px - ax) * (by - ay) - (py - ay) * (bx - ax)
}

/// Bound for coordinates fed to the edge function.
pub open spec fn coord_ok(c: int) -> bool {
    -65536 <= c <= 65536
}

/// Edge function over integer pixel coordinates, exact.
pub fn edge_function(ax: i64, ay: i64, bx: i64, by: i64, px: i64, py: i64) -> (e: i64)
    requires
        coord_ok(ax as int) && coord_ok(ay as int) && coord_ok(bx as int),
        coord_ok(by as int) && coord_ok(px as int) && coord_ok(py as int),
    ensures
        e == edge_s(ax as int, ay as int, bx as int, by as int, px as int, py as int),
        -0x8_0000_0000 <= e <= 0x8_0000_0000,
{
    proof {
        assert(-0x4_0000_0000 <= (px - ax) * (by - ay) <= 0x4_0000_0000) by (nonlinear_arith)
            requires
                -131072 <= px - ax <= 131072,
                -131072 <= by - ay <= 131072,
        ;
        assert(-0x4_0000_0000 <= (py - ay) * (bx - ax) <= 0x4_0000_0000) by (nonlinear_arith)
            requires
                -131072 <= py - ay <= 131072,
                -131072 <= bx - ax <= 131072,
        ;
    }
    (px - ax) * (by - ay) - (py - ay) * (bx - ax)
}

/// The edge function is invariant under translating all points together.
proof fn lemma_edge_translate(ax: int, ay: int, bx: int, by: int, px: int, py: int, tx: int, ty: int)
    ensures
        edge_s(ax - tx, ay - ty, bx - tx, by - ty, px - tx, py - ty)
            == edge_s(ax, ay, bx, by, px, py),
{
    assert((px - tx - (ax - tx)) * (by - ty - (ay - ty)) - (py - ty - (ay - ty)) * (bx - tx - (ax - tx))
        == (px - ax) * (by - ay) - (py - ay) * (bx - ax)) by (nonlinear_arith);
}

/// Against the origin, an edge value is a plain 2D cross product.
proof fn lemma_edge_origin_monomial(ax: int, ay: int, bx: int, by: int)
    ensures
        edge_s(ax, ay, bx, by, 0, 0) == bx * ay - ax * by,
{
    assert((0 - ax) * (by - ay) - (0 - ay) * (bx - ax) == bx * ay - ax * by) by (nonlinear_arith);
}

/// With the query point at the origin, the three edge values sum to the
/// triangle's area.
proof fn lemma_edge_sum_origin(x0: int, y0: int, x1: int, y1: int, x2: int, y2: int)
    ensures
        edge_s(x1, y1, x2, y2, 0, 0) + edge_s(x2, y2, x0, y0, 0, 0) + edge_s(x0, y0, x1, y1, 0, 0)
            == edge_s(x0, y0, x1, y1, x2, y2),
{
    lemma_edge_origin_monomial(x1, y1, x2, y2);
    lemma_edge_origin_monomial(x2, y2, x0, y0);
    lemma_edge_origin_monomial(x0, y0, x1, y1);
    assert((x2 - x0) * (y1 - y0) == x2 * y1 - x2 * y0 - x0 * y1 + x0 * y0) by (nonlinear_arith);
    assert((y2 - y0) * (x1 - x0) == x1 * y2 - x0 * y2 - x1 * y0 + x0 * y0) by (nonlinear_arith);
}

/// With the query point at the origin, the edge values weight the vertex
/// coordinates to zero.
proof fn lemma_edge_weights_origin(x0: int, y0: int, x1: int, y1: int, x2: int, y2: int)
    ensures
        edge_s(x1, y1, x2, y2, 0, 0) * x0 + edge_s(x2, y2, x0, y0, 0, 0) * x1
            + edge_s(x0, y0, x1, y1, 0, 0) * x2 == 0,
        edge_s(x1, y1, x2, y2, 0, 0) * y0 + edge_s(x2, y2, x0, y0, 0, 0) * y1
            + edge_s(x0, y0, x1, y1, 0, 0) * y2 == 0,
{
    lemma_edge_origin_monomial(x1, y1, x2, y2);
    lemma_edge_origin_monomial(x2, y2, x0, y0);
    lemma_edge_origin_monomial(x0, y0, x1, y1);
    assert((x2 * y1 - x1 * y2) * x0 + (x0 * y2 - x2 * y0) * x1 + (x1 * y0 - x0 * y1) * x2 == 0)
        by (nonlinear_arith);
    assert((x2 * y1 - x1 * y2) * y0 + (x0 * y2 - x2 * y0) * y1 + (x1 * y0 - x0 * y1) * y2 == 0)
        by (nonlinear_arith);
}

/// The three edge values of a pixel against a triangle sum to the
/// triangle's area, and weight the vertices back to the pixel: the
/// algebraic heart of barycentric interpolation.
pub proof fn lemma_edge_identities(
    x0: int, y0: int, x1: int, y1: int, x2: int, y2: int, px: int, py: int,
)
    ensures
        edge_s(x1, y1, x2, y2, px, py) + edge_s(x2, y2, x0, y0, px, py)
            + edge_s(x0, y0, x1, y1, px, py) == edge_s(x0, y0, x1, y1, x2, y2),
        edge_s(x1, y1, x2, y2, px, py) * (x0 - px) + edge_s(x2, y2, x0, y0, px, py) * (x1 - px)
            + edge_s(x0, y0, x1, y1, px, py) * (x2 - px) == 0,
        edge_s(x1, y1, x2, y2, px, py) * (y0 - py) + edge_s(x2, y2, x0, y0, px, py) * (y1 - py)
            + edge_s(x0, y0, x1, y1, px, py) * (y2 - py) == 0,
{
    lemma_edge_weights_origin(x0 - px, y0 - py, x1 - px, y1 - py, x2 - px, y2 - py);
    lemma_edge_sum_origin(x0 - px, y0 - py, x1 - px, y1 - py, x2 - px, y2 - py);
    lemma_edge_translate(x1, y1, x2, y2, px, py, px, py);
    lemma_edge_translate(x2, y2, x0, y0, px, py, px, py);
    lemma_edge_translate(x0, y0, x1, y1, px, py, px, py);
    lemma_edge_translate(x0, y0, x1, y1, x2, y2, px, py);
}

/// A pixel is inside a triangle when its three edge values share a sign.
pub open spec fn inside_s(w0: int, w1: int, w2: int) -> bool {
    (w0 >= 0 && w1 >= 0 && w2 >= 0) || (w0 <= 0 && w1 <= 0 && w2 <= 0)
}

/// Pixel column of a triangle vertex given by its NDC position.
pub open spec fn tsx_s(p: Vec3, w: int) -> int {
    screen_x_s(p.x as int, w)
}

/// Pixel row of a triangle vertex given by its NDC position.
pub open spec fn tsy_s(p: Vec3, h: int) -> int {
    screen_y_s(p.y as int, h)
}

/// Twice the signed area of a triangle's screen-space projection.
pub open spec fn tri_area_s(p0: Vec3, p1: Vec3, p2: Vec3, w: int, h: int) -> int {
    edge_s(tsx_s(p0, w), tsy_s(p0, h), tsx_s(p1, w), tsy_s(p1, h), tsx_s(p2, w), tsy_s(p2, h))
}

/// Edge value of a pixel against the side opposite vertex 0.
pub open spec fn tri_w0_s(p0: Vec3, p1: Vec3, p2: Vec3, w: int, h: int, px: int, py: int) -> int {
    edge_s(tsx_s(p1, w), tsy_s(p1, h), tsx_s(p2, w), tsy_s(p2, h), px, py)
}

/// Edge value of a pixel against the side opposite vertex 1.
pub open spec fn tri_w1_s(p0: Vec3, p1: Vec3, p2: Vec3, w: int, h: int, px: int, py: int) -> int {
    edge_s(tsx_s(p2, w), tsy_s(p2, h), tsx_s(p0, w), tsy_s(p0, h), px, py)
}

/// Edge value of a pixel against the side opposite vertex 2.
pub open spec fn tri_w2_s(p0: Vec3, p1: Vec3, p2: Vec3, w: int, h: int, px: int, py: int) -> int {
    edge_s(tsx_s(p0, w), tsy_s(p0, h), tsx_s(p1, w), tsy_s(p1, h), px, py)
}

/// A non-degenerate triangle covers a pixel when all three edge values
/// share the sign of the area. Zero-area triangles cover nothing.
pub open spec fn covers_s(p0: Vec3, p1: Vec3, p2: Vec3, w: int, h: int, px: int, py: int) -> bool {
    tri_area_s(p0, p1, p2, w, h) != 0 && inside_s(
        tri_w0_s(p0, p1, p2, w, h, px, py),
        tri_w1_s(p0, p1, p2, w, h, px, py),
        tri_w2_s(p0, p1, p2, w, h, px, py),
    )
}

/// A nonnegative barycentric weight normalized to fixed-point units.
pub open spec fn bary_s(wi: int, area: int) -> int {
    (crate::fx::fx_abs_s(wi) * FX_SCALE) / crate::fx::fx_abs_s(area)
}

/// The renormalized third barycentric weight: whatever the first two
/// leave of one, so the three weights always sum to exactly one and three
/// equal attributes interpolate to themselves.
pub open spec fn bary_last_s(w0: int, w1: int, area: int) -> int {
    FX_SCALE - bary_s(w0, area) - bary_s(w1, area)
}

/// Barycentric interpolation of three scalar attributes: the sum of the
/// attribute-weight products, scaled back with a single rounding so that
/// weights summing to one blend exactly.
pub open spec fn interp3_s(a0: int, a1: int, a2: int, b0: int, b1: int, b2: int) -> int {
    sat(tdiv(a0 * b0 + a1 * b1 + a2 * b2, FX_SCALE as int))
}

/// Barycentric interpolation under a true partition of unity is convex:
/// the blended value lies between the smallest and the largest attribute.
/// In particular a triangle's interpolated depth at any covered pixel
/// stays within the range of its vertex depths.
pub proof fn lemma_interp3_convex(a0: int, a1: int, a2: int, b0: int, b1: int, b2: int)
    requires
        -FX_LIM <= a0 <= FX_LIM,
        -FX_LIM <= a1 <= FX_LIM,
        -FX_LIM <= a2 <= FX_LIM,
        0 <= b0,
        0 <= b1,
        0 <= b2,
        b0 + b1 + b2 == FX_SCALE,
    ensures
        ({
            let lo = if a0 <= a1 && a0 <= a2 { a0 } else if a1 <= a2 { a1 } else { a2 };
            let hi = if a0 >= a1 && a0 >= a2 { a0 } else if a1 >= a2 { a1 } else { a2 };
            lo <= interp3_s(a0, a1, a2, b0, b1, b2) <= hi
        }),
{
    let lo = if a0 <= a1 && a0 <= a2 { a0 } else if a1 <= a2 { a1 } else { a2 };
    let hi = if a0 >= a1 && a0 >= a2 { a0 } else if a1 >= a2 { a1 } else { a2 };
    let t = a0 * b0 + a1 * b1 + a2 * b2;
    assert(lo * b0 <= a0 * b0 && lo * b1 <= a1 * b1 && lo * b2 <= a2 * b2) by (nonlinear_arith)
        requires
            lo <= a0 && lo <= a1 && lo <= a2,
            0 <= b0 && 0 <= b1 && 0 <= b2,
    ;
    assert(a0 * b0 <= hi * b0 && a1 * b1 <= hi * b1 && a2 * b2 <= hi * b2) by (nonlinear_arith)
        requires
            a0 <= hi && a1 <= hi && a2 <= hi,
            0 <= b0 && 0 <= b1 && 0 <= b2,
    ;
    assert(lo * b0 + lo * b1 + lo * b2 == lo * FX_SCALE
        && hi * b0 + hi * b1 + hi * b2 == hi * FX_SCALE) by (nonlinear_arith)
        requires
            b0 + b1 + b2 == FX_SCALE,
    ;
    assert(lo * FX_SCALE <= t <= hi * FX_SCALE);
    lemma_tdiv_scale_bounds(t, lo, hi);
    assert(-FX_LIM <= tdiv(t, FX_SCALE as int) <= FX_LIM);
}

/// A value between two scaled bounds divides back, truncating, to a value
/// between the bounds.
proof fn lemma_tdiv_scale_bounds(t: int, lo: int, hi: int)
    requires
        lo <= hi,
        lo * FX_SCALE <= t <= hi * FX_SCALE,
    ensures
        lo <= tdiv(t, FX_SCALE as int) <= hi,
{
    let s = FX_SCALE as int;
    if t >= 0 {
        if lo >= 0 {
            vstd::arithmetic::div_mod::lemma_div_is_ordered(lo * s, t, s);
            vstd::arithmetic::div_mod::lemma_div_multiples_vanish(lo, s);
            assert(s * lo == lo * s) by (nonlinear_arith);
        } else {
            vstd::arithmetic::div_mod::lemma_div_pos_is_pos(t, s);
        }
        assert(hi >= 0) by (nonlinear_arith)
            requires
                hi * s >= t >= 0,
                s > 0,
        ;
        vstd::arithmetic::div_mod::lemma_div_is_ordered(t, hi * s, s);
        vstd::arithmetic::div_mod::lemma_div_multiples_vanish(hi, s);
        assert(s * hi == hi * s) by (nonlinear_arith);
    } else {
        assert(lo < 0) by (nonlinear_arith)
            requires
                lo * s <= t < 0,
                s > 0,
        ;
        vstd::arithmetic::div_mod::lemma_div_is_ordered(-t, (-lo) * s, s);
        vstd::arithmetic::div_mod::lemma_div_multiples_vanish(-lo, s);
        assert(s * (-lo) == (-lo) * s && -(lo * s) == (-lo) * s) by (nonlinear_arith);
        if hi < 0 {
            vstd::arithmetic::div_mod::lemma_div_is_ordered((-hi) * s, -t, s);
            vstd::arithmetic::div_mod::lemma_div_multiples_vanish(-hi, s);
            assert(s * (-hi) == (-hi) * s && -(hi * s) == (-hi) * s) by (nonlinear_arith);
        } else {
            vstd::arithmetic::div_mod::lemma_div_pos_is_pos(-t, s);
        }
    }
}

/// The depth the triangle takes at a pixel: its vertices' NDC depths
/// blended with the pixel's barycentric weights.
pub open spec fn depth_at_s(p0: Vec3, p1: Vec3, p2: Vec3, w: int, h: int, px: int, py: int) -> int {
    let area = tri_area_s(p0, p1, p2, w, h);
    let w0 = tri_w0_s(p0, p1, p2, w, h, px, py);
    let w1 = tri_w1_s(p0, p1, p2, w, h, px, py);
    interp3_s(
        p0.z as int, p1.z as int, p2.z as int,
        bary_s(w0, area), bary_s(w1, area), bary_last_s(w0, w1, area),
    )
}

/// Barycentric partition of unity, in integers: for a pixel covered by a
/// non-degenerate triangle, the edge-value magnitudes sum exactly to the
/// area's, the two floor-normalized weights lie in [0, 1] and leave room
/// for a third, so the renormalized triple lies in [0, 1] and sums to
/// exactly 1.
pub proof fn lemma_barycentric_unity(
    x0: int, y0: int, x1: int, y1: int, x2: int, y2: int, px: int, py: int,
)
    requires
        edge_s(x0, y0, x1, y1, x2, y2) != 0,
        inside_s(
            edge_s(x1, y1, x2, y2, px, py),
            edge_s(x2, y2, x0, y0, px, py),
            edge_s(x0, y0, x1, y1, px, py),
        ),
    ensures
        ({
            let area = edge_s(x0, y0, x1, y1, x2, y2);
            let w0 = edge_s(x1, y1, x2, y2, px, py);
            let w1 = edge_s(x2, y2, x0, y0, px, py);
            let w2 = edge_s(x0, y0, x1, y1, px, py);
            let b0 = bary_s(w0, area);
            let b1 = bary_s(w1, area);
            let b2 = bary_last_s(w0, w1, area);
            crate::fx::fx_abs_s(w0) + crate::fx::fx_abs_s(w1) + crate::fx::fx_abs_s(w2)
                == crate::fx::fx_abs_s(area)
            && 0 <= b0 <= FX_SCALE && 0 <= b1 <= FX_SCALE && 0 <= b2 <= FX_SCALE
            && b0 + b1 + b2 == FX_SCALE
        }),
{
    let area = edge_s(x0, y0, x1, y1, x2, y2);
    let w0 = edge_s(x1, y1, x2, y2, px, py);
    let w1 = edge_s(x2, y2, x0, y0, px, py);
    let w2 = edge_s(x0, y0, x1, y1, px, py);
    lemma_edge_identities(x0, y0, x1, y1, x2, y2, px, py);
    let aa = crate::fx::fx_abs_s(area);
    let a0 = crate::fx::fx_abs_s(w0);
    let a1 = crate::fx::fx_abs_s(w1);
    let a2 = crate::fx::fx_abs_s(w2);
    assert(a0 + a1 + a2 == aa);
    let b0 = bary_s(w0, area);
    let b1 = bary_s(w1, area);
    let b2 = bary_s(w2, area);
    vstd::arithmetic::div_mod::lemma_fundamental_div_mod(a0 * FX_SCALE, aa);
    vstd::arithmetic::div_mod::lemma_fundamental_div_mod(a1 * FX_SCALE, aa);
    vstd::arithmetic::div_mod::lemma_fundamental_div_mod(a2 * FX_SCALE, aa);
    vstd::arithmetic::div_mod::lemma_mod_bound(a0 * FX_SCALE, aa);
    vstd::arithmetic::div_mod::lemma_mod_bound(a1 * FX_SCALE, aa);
    vstd::arithmetic::div_mod::lemma_mod_bound(a2 * FX_SCALE, aa);
    assert(a0 * FX_SCALE + a1 * FX_SCALE + a2 * FX_SCALE == aa * FX_SCALE) by (nonlinear_arith)
        requires
            a0 + a1 + a2 == aa,
    ;
    assert(aa * b0 + aa * b1 + aa * b2 + ((a0 * FX_SCALE) % aa + (a1 * FX_SCALE) % aa + (a2 * FX_SCALE) % aa)
        == aa * FX_SCALE);
    assert(aa * (b0 + b1 + b2) == aa * b0 + aa * b1 + aa * b2) by (nonlinear_arith);
    let rsum = (a0 * FX_SCALE) % aa + (a1 * FX_SCALE) % aa + (a2 * FX_SCALE) % aa;
    assert(0 <= rsum && rsum <= 3 * (aa - 1));
    assert(b0 + b1 + b2 <= FX_SCALE && b0 + b1 + b2 > FX_SCALE - 3) by (nonlinear_arith)
        requires
            aa * (b0 + b1 + b2) == aa * FX_SCALE - rsum,
            0 <= rsum <= 3 * (aa - 1),
            aa >= 1,
            FX_SCALE == 65536,
    ;
    vstd::arithmetic::div_mod::lemma_div_pos_is_pos(a0 * FX_SCALE, aa);
    vstd::arithmetic::div_mod::lemma_div_pos_is_pos(a1 * FX_SCALE, aa);
    vstd::arithmetic::div_mod::lemma_div_pos_is_pos(a2 * FX_SCALE, aa);
    assert(a0 * FX_SCALE >= 0 && a1 * FX_SCALE >= 0 && a2 * FX_SCALE >= 0) by (nonlinear_arith)
        requires
            a0 >= 0 && a1 >= 0 && a2 >= 0,
    ;
    assert(a0 * FX_SCALE <= aa * FX_SCALE && a1 * FX_SCALE <= aa * FX_SCALE && a2 * FX_SCALE <= aa * FX_SCALE)
        by (nonlinear_arith)
        requires
            a0 + a1 + a2 == aa,
            a0 >= 0 && a1 >= 0 && a2 >= 0,
            FX_SCALE == 65536,
    ;
    vstd::arithmetic::div_mod::lemma_div_is_ordered(a0 * FX_SCALE, aa * FX_SCALE, aa);
    vstd::arithmetic::div_mod::lemma_div_is_ordered(a1 * FX_SCALE, aa * FX_SCALE, aa);
    vstd::arithmetic::div_mod::lemma_div_is_ordered(a2 * FX_SCALE, aa * FX_SCALE, aa);
    vstd::arithmetic::div_mod::lemma_div_multiples_vanish(FX_SCALE as int, aa);
    assert(aa * FX_SCALE == FX_SCALE * aa) by (nonlinear_arith);
}

/// A covered pixel lies within the triangle's screen-space bounding box:
/// the bounding-box scan misses nothing.
pub proof fn lemma_covers_in_bbox(
    x0: int, y0: int, x1: int, y1: int, x2: int, y2: int, px: int, py: int,
)
    requires
        edge_s(x0, y0, x1, y1, x2, y2) != 0,
        inside_s(
            edge_s(x1, y1, x2, y2, px, py),
            edge_s(x2, y2, x0, y0, px, py),
            edge_s(x0, y0, x1, y1, px, py),
        ),
    ensures
        px >= x0 || px >= x1 || px >= x2,
        px <= x0 || px <= x1 || px <= x2,
        py >= y0 || py >= y1 || py >= y2,
        py <= y0 || py <= y1 || py <= y2,
{
    let area = edge_s(x0, y0, x1, y1, x2, y2);
    let w0 = edge_s(x1, y1, x2, y2, px, py);
    let w1 = edge_s(x2, y2, x0, y0, px, py);
    let w2 = edge_s(x0, y0, x1, y1, px, py);
    lemma_edge_identities(x0, y0, x1, y1, x2, y2, px, py);
    assert(w0 + w1 + w2 == area);
    if area > 0 {
        assert(w0 >= 0 && w1 >= 0 && w2 >= 0);
        lemma_weighted_zero_sum(w0, w1, w2, x0 - px, x1 - px, x2 - px);
        lemma_weighted_zero_sum(w0, w1, w2, y0 - py, y1 - py, y2 - py);
    } else {
        assert(w0 <= 0 && w1 <= 0 && w2 <= 0);
        assert((-w0) * (x0 - px) + (-w1) * (x1 - px) + (-w2) * (x2 - px) == 0) by (nonlinear_arith)
            requires
                w0 * (x0 - px) + w1 * (x1 - px) + w2 * (x2 - px) == 0,
        ;
        assert((-w0) * (y0 - py) + (-w1) * (y1 - py) + (-w2) * (y2 - py) == 0) by (nonlinear_arith)
            requires
                w0 * (y0 - py) + w1 * (y1 - py) + w2 * (y2 - py) == 0,
        ;
        assert((-w0) + (-w1) + (-w2) > 0);
        lemma_weighted_zero_sum(-w0, -w1, -w2, x0 - px, x1 - px, x2 - px);
        lemma_weighted_zero_sum(-w0, -w1, -w2, y0 - py, y1 - py, y2 - py);
    }
}

/// Barycentric interpolation of three scalar attributes, with one rounding.
pub fn interp3(a0: i64, a1: i64, a2: i64, b0: i64, b1: i64, b2: i64) -> (r: i64)
    requires
        fx_wf(a0),
        fx_wf(a1),
        fx_wf(a2),
        0 <= b0 <= FX_SCALE,
        0 <= b1 <= FX_SCALE,
        0 <= b2 <= FX_SCALE,
    ensures
        r == interp3_s(a0 as int, a1 as int, a2 as int, b0 as int, b1 as int, b2 as int),
        fx_wf(r),
{
    proof {
        assert(-0x8000_0000_0000 <= a0 * b0 <= 0x8000_0000_0000
            && -0x8000_0000_0000 <= a1 * b1 <= 0x8000_0000_0000
            && -0x8000_0000_0000 <= a2 * b2 <= 0x8000_0000_0000) by (nonlinear_arith)
            requires
                -0x8000_0000 <= a0 <= 0x8000_0000,
                -0x8000_0000 <= a1 <= 0x8000_0000,
                -0x8000_0000 <= a2 <= 0x8000_0000,
                0 <= b0 <= 65536,
                0 <= b1 <= 65536,
                0 <= b2 <= 65536,
        ;
    }
    let total: i64 = a0 * b0 + a1 * b1 + a2 * b2;
    let q: i64 = total / FX_SCALE;
    fx_sat(q)
}

/// Barycentric interpolation of three vector attributes, componentwise.
pub open spec fn interp_vec_s(a0: Vec3, a1: Vec3, a2: Vec3, b0: int, b1: int, b2: int) -> Vec3 {
    Vec3 {
        x: interp3_s(a0.x as int, a1.x as int, a2.x as int, b0, b1, b2) as i64,
        y: interp3_s(a0.y as int, a1.y as int, a2.y as int, b0, b1, b2) as i64,
        z: interp3_s(a0.z as int, a1.z as int, a2.z as int, b0, b1, b2) as i64,
    }
}

/// Barycentric interpolation of three vector attributes.
pub fn interp_vec(a0: &Vec3, a1: &Vec3, a2: &Vec3, b0: i64, b1: i64, b2: i64) -> (r: Vec3)
    requires
        v_wf(*a0),
        v_wf(*a1),
        v_wf(*a2),
        0 <= b0 <= FX_SCALE,
        0 <= b1 <= FX_SCALE,
        0 <= b2 <= FX_SCALE,
    ensures
        r == interp_vec_s(*a0, *a1, *a2, b0 as int, b1 as int, b2 as int),
        v_wf(r),
{
    Vec3 {
        x: interp3(a0.x, a1.x, a2.x, b0, b1, b2),
        y: interp3(a0.y, a1.y, a2.y, b0, b1, b2),
        z: interp3(a0.z, a1.z, a2.z, b0, b1, b2),
    }
}

/// Minimum ambient light on flat-shaded surfaces (0.1).
pub const DIFFUSE_FLOOR: i64 = 6554;

/// The flat-shaded color of a fragment with the given barycentric weights:
/// interpolated base color, Lambert-lit against the light direction unless
/// the surface is emissive.
pub open spec fn flat_color_s(
    v0: Vertex, v1: Vertex, v2: Vertex, b0: int, b1: int, b2: int, light: Vec3, em: bool,
) -> u32 {
    let cr = interp3_s(v0.color.r as int, v1.color.r as int, v2.color.r as int, b0, b1, b2);
    let cg = interp3_s(v0.color.g as int, v1.color.g as int, v2.color.g as int, b0, b1, b2);
    let cb = interp3_s(v0.color.b as int, v1.color.b as int, v2.color.b as int, b0, b1, b2);
    if em {
        pack_fx_s(cr, cg, cb)
    } else {
        let n = vnorm_s(interp_vec_s(v0.normal, v1.normal, v2.normal, b0, b1, b2));
        let d = vdot_s(n, light);
        let diffuse = if d >= DIFFUSE_FLOOR {
            d
        } else {
            DIFFUSE_FLOOR as int
        };
        pack_fx_s(fx_mul_s(cr, diffuse), fx_mul_s(cg, diffuse), fx_mul_s(cb, diffuse))
    }
}

/// The flat-shaded color a triangle takes at a pixel.
pub open spec fn flat_color_at_s(
    v0: Vertex, v1: Vertex, v2: Vertex, w: int, h: int, px: int, py: int, light: Vec3, em: bool,
) -> u32 {
    let area = tri_area_s(v0.position, v1.position, v2.position, w, h);
    let w0 = tri_w0_s(v0.position, v1.position, v2.position, w, h, px, py);
    let w1 = tri_w1_s(v0.position, v1.position, v2.position, w, h, px, py);
    flat_color_s(v0, v1, v2, bary_s(w0, area), bary_s(w1, area), bary_last_s(w0, w1, area), light, em)
}

/// The flat-shaded color of a fragment with the given barycentric weights.
pub fn flat_fragment_color(
    v0: &Vertex, v1: &Vertex, v2: &Vertex, b0: i64, b1: i64, b2: i64, light: &Vec3, em: bool,
) -> (c: u32)
    requires
        vert_wf(*v0),
        vert_wf(*v1),
        vert_wf(*v2),
        0 <= b0 <= FX_SCALE,
        0 <= b1 <= FX_SCALE,
        0 <= b2 <= FX_SCALE,
        v_wf(*light),
    ensures
        c == flat_color_s(*v0, *v1, *v2, b0 as int, b1 as int, b2 as int, *light, em),
{
    let cr: i64 = interp3(v0.color.r, v1.color.r, v2.color.r, b0, b1, b2);
    let cg: i64 = interp3(v0.color.g, v1.color.g, v2.color.g, b0, b1, b2);
    let cb: i64 = interp3(v0.color.b, v1.color.b, v2.color.b, b0, b1, b2);
    if em {
        rgb_fx_to_u32(cr, cg, cb)
    } else {
        let n: Vec3 = interp_vec(&v0.normal, &v1.normal, &v2.normal, b0, b1, b2).normalize();
        let d: i64 = n.dot(light);
        let diffuse: i64 = if d >= DIFFUSE_FLOOR {
            d
        } else {
            DIFFUSE_FLOOR
        };
        rgb_fx_to_u32(fx_mul(cr, diffuse), fx_mul(cg, diffuse), fx_mul(cb, diffuse))
    }
}

/// The depth buffer entry at flat index i after one triangle is considered:
/// the minimum of the old depth and the triangle's depth where the triangle
/// covers the pixel, the old depth everywhere else.
pub open spec fn depth_after_s(p0: Vec3, p1: Vec3, p2: Vec3, w: int, h: int, i: int, oldz: int) -> int {
    let px = i % w;
    let py = i / w;
    if covers_s(p0, p1, p2, w, h, px, py) && depth_at_s(p0, p1, p2, w, h, px, py) < oldz {
        depth_at_s(p0, p1, p2, w, h, px, py)
    } else {
        oldz
    }
}

/// The color buffer entry at flat index i after one flat-shaded triangle:
/// updated exactly when the depth entry is.
pub open spec fn flat_color_after_s(
    v0: Vertex, v1: Vertex, v2: Vertex, w: int, h: int, i: int, oldz: int, oldc: u32,
    light: Vec3, em: bool,
) -> u32 {
    let px = i % w;
    let py = i / w;
    if covers_s(v0.position, v1.position, v2.position, w, h, px, py)
        && depth_at_s(v0.position, v1.position, v2.position, w, h, px, py) < oldz {
        flat_color_at_s(v0, v1, v2, w, h, px, py, light, em)
    } else {
        oldc
    }
}

/// Flat index i of a row-major grid decomposes into its column and row.
proof fn lemma_flat_index(i: int, w: int, h: int)
    requires
        0 < w,
        0 < h,
        0 <= i < w * h,
    ensures
        0 <= i % w < w,
        0 <= i / w < h,
        i == (i / w) * w + i % w,
{
    vstd::arithmetic::div_mod::lemma_fundamental_div_mod(i, w);
    vstd::arithmetic::div_mod::lemma_mod_bound(i, w);
    vstd::arithmetic::div_mod::lemma_div_pos_is_pos(i, w);
    assert((i / w) * w == w * (i / w)) by (nonlinear_arith);
    if i / w >= h {
        assert(w * (i / w) >= w * h) by (nonlinear_arith)
            requires
                i / w >= h,
                w > 0,
        ;
    }
}

/// A column and row recompose into their flat index.
proof fn lemma_flat_index_of(qx: int, qy: int, w: int)
    requires
        0 < w,
        0 <= qx < w,
        0 <= qy,
    ensures
        (qy * w + qx) % w == qx,
        (qy * w + qx) / w == qy,
{
    vstd::arithmetic::div_mod::lemma_fundamental_div_mod_converse(qy * w + qx, w, qy, qx);
}

/// Pixels already visited by the bounding-box scan when it stands at
/// column x of row y: full rows above y plus the left part of row y,
/// within columns [lox, hix] and rows from loy.
pub open spec fn scanned_s(i: int, w: int, lox: int, hix: int, loy: int, y: int, x: int) -> bool {
    let qx = i % w;
    let qy = i / w;
    lox <= qx <= hix && loy <= qy && (qy < y || (qy == y && qx < x))
}

/// Rasterize one pixel of a flat-shaded triangle: exactly the pixel (x, y)
/// is considered, and it takes the triangle's depth and color when the
/// triangle covers it strictly closer than what is stored.
fn shade_pixel_flat(
    fb: &mut Framebuffer, v0: &Vertex, v1: &Vertex, v2: &Vertex, light: &Vec3, em: bool,
    x: usize, y: usize,
)
    requires
        fb_wf(*old(fb)),
        old(fb).width <= MAX_DIM,
        old(fb).height <= MAX_DIM,
        x < old(fb).width,
        y < old(fb).height,
        vert_wf(*v0),
        vert_wf(*v1),
        vert_wf(*v2),
        v_wf(*light),
    ensures
        fb_wf(*final(fb)),
        final(fb).width == old(fb).width,
        final(fb).height == old(fb).height,
        final(fb).background_color == old(fb).background_color,
        forall|i: int| 0 <= i < final(fb).zbuffer@.len()
            ==> #[trigger] final(fb).zbuffer@[i] == (if i == y * old(fb).width + x {
                depth_after_s(
                    v0.position, v1.position, v2.position,
                    old(fb).width as int, old(fb).height as int, i, old(fb).zbuffer@[i] as int,
                )
            } else {
                old(fb).zbuffer@[i] as int
            }),
        forall|i: int| 0 <= i < final(fb).buffer@.len()
            ==> #[trigger] final(fb).buffer@[i] == (if i == y * old(fb).width + x {
                flat_color_after_s(
                    *v0, *v1, *v2, old(fb).width as int, old(fb).height as int, i,
                    old(fb).zbuffer@[i] as int, old(fb).buffer@[i], *light, em,
                )
            } else {
                old(fb).buffer@[i]
            }),
{
    let w: usize = fb.width;
    let h: usize = fb.height;
    proof {
        lemma_flat_index_of(x as int, y as int, w as int);
    }
    let s0: (i64, i64) = to_screen_coords(&v0.position, w, h);
    let s1: (i64, i64) = to_screen_coords(&v1.position, w, h);
    let s2: (i64, i64) = to_screen_coords(&v2.position, w, h);
    let area: i64 = edge_function(s0.0, s0.1, s1.0, s1.1, s2.0, s2.1);
    if area == 0 {
        return;
    }
    let pxi: i64 = x as i64;
    let pyi: i64 = y as i64;
    let w0: i64 = edge_function(s1.0, s1.1, s2.0, s2.1, pxi, pyi);
    let w1: i64 = edge_function(s2.0, s2.1, s0.0, s0.1, pxi, pyi);
    let w2: i64 = edge_function(s0.0, s0.1, s1.0, s1.1, pxi, pyi);
    let inside: bool = (w0 >= 0 && w1 >= 0 && w2 >= 0) || (w0 <= 0 && w1 <= 0 && w2 <= 0);
    if !inside {
        return;
    }
    proof {
        lemma_barycentric_unity(
            s0.0 as int, s0.1 as int, s1.0 as int, s1.1 as int, s2.0 as int, s2.1 as int,
            pxi as int, pyi as int,
        );
    }
    let aa: i64 = if area >= 0 { area } else { -area };
    let n0: i64 = if w0 >= 0 { w0 } else { -w0 };
    let n1: i64 = if w1 >= 0 { w1 } else { -w1 };
    let b0: i64 = (n0 * FX_SCALE) / aa;
    let b1: i64 = (n1 * FX_SCALE) / aa;
    let b2: i64 = FX_SCALE - b0 - b1;
    let z: i64 = interp3(v0.position.z, v1.position.z, v2.position.z, b0, b1, b2);
    let color: u32 = flat_fragment_color(v0, v1, v2, b0, b1, b2, light, em);
    fb.set_pixel(x, y, z, color);
}

/// Rasterize a flat-shaded triangle with a bounding-box scan and a
/// depth test. For every pixel of the framebuffer: where the triangle
/// covers the pixel, the stored depth becomes the minimum of the old depth
/// and the triangle's interpolated depth, and the color changes to the
/// triangle's shaded color exactly when the depth does; every other pixel
/// is untouched. Zero-area triangles are skipped entirely.
#[verifier::loop_isolation(false)]
#[verifier::rlimit(100)]
pub fn rasterize_triangle(
    fb: &mut Framebuffer, v0: &Vertex, v1: &Vertex, v2: &Vertex, light_dir: &Vec3,
    is_emissive: bool,
)
    requires
        fb_wf(*old(fb)),
        old(fb).width <= MAX_DIM,
        old(fb).height <= MAX_DIM,
        vert_wf(*v0),
        vert_wf(*v1),
        vert_wf(*v2),
        v_wf(*light_dir),
    ensures
        fb_wf(*final(fb)),
        final(fb).width == old(fb).width,
        final(fb).height == old(fb).height,
        final(fb).background_color == old(fb).background_color,
        forall|i: int| 0 <= i < final(fb).zbuffer@.len()
            ==> #[trigger] final(fb).zbuffer@[i] == depth_after_s(
                v0.position, v1.position, v2.position,
                old(fb).width as int, old(fb).height as int, i, old(fb).zbuffer@[i] as int,
            ),
        forall|i: int| 0 <= i < final(fb).buffer@.len()
            ==> #[trigger] final(fb).buffer@[i] == flat_color_after_s(
                *v0, *v1, *v2, old(fb).width as int, old(fb).height as int, i,
                old(fb).zbuffer@[i] as int, old(fb).buffer@[i], *light_dir, is_emissive,
            ),
{
    let w: usize = fb.width;
    let h: usize = fb.height;
    if w == 0 || h == 0 {
        proof {
            assert(w * h == 0) by (nonlinear_arith)
                requires
                    w == 0 || h == 0,
            ;
        }
        return;
    }
    let s0: (i64, i64) = to_screen_coords(&v0.position, w, h);
    let s1: (i64, i64) = to_screen_coords(&v1.position, w, h);
    let s2: (i64, i64) = to_screen_coords(&v2.position, w, h);
    let area: i64 = edge_function(s0.0, s0.1, s1.0, s1.1, s2.0, s2.1);
    if area == 0 {
        return;
    }
    let minx: i64 = if s0.0 <= s1.0 && s0.0 <= s2.0 { s0.0 } else if s1.0 <= s2.0 { s1.0 } else { s2.0 };
    let maxx: i64 = if s0.0 >= s1.0 && s0.0 >= s2.0 { s0.0 } else if s1.0 >= s2.0 { s1.0 } else { s2.0 };
    let miny: i64 = if s0.1 <= s1.1 && s0.1 <= s2.1 { s0.1 } else if s1.1 <= s2.1 { s1.1 } else { s2.1 };
    let maxy: i64 = if s0.1 >= s1.1 && s0.1 >= s2.1 { s0.1 } else if s1.1 >= s2.1 { s1.1 } else { s2.1 };
    let lox_i: i64 = if minx < 0 { 0 } else { minx };
    let hix_i: i64 = if maxx > (w as i64) - 1 { (w as i64) - 1 } else { maxx };
    let loy_i: i64 = if miny < 0 { 0 } else { miny };
    let hiy_i: i64 = if maxy > (h as i64) - 1 { (h as i64) - 1 } else { maxy };
    if lox_i > hix_i || loy_i > hiy_i {
        proof {
            assert forall|qx: int, qy: int| 0 <= qx < w && 0 <= qy < h implies
                !(#[trigger] covers_s(v0.position, v1.position, v2.position, w as int, h as int, qx, qy))
            by {
                if covers_s(v0.position, v1.position, v2.position, w as int, h as int, qx, qy) {
                    lemma_covers_in_bbox(
                        s0.0 as int, s0.1 as int, s1.0 as int, s1.1 as int, s2.0 as int, s2.1 as int,
                        qx, qy,
                    );
                }
            }
            assert forall|i: int| 0 <= i < fb.zbuffer@.len() implies
                #[trigger] fb.zbuffer@[i] == depth_after_s(
                    v0.position, v1.position, v2.position, w as int, h as int, i,
                    fb.zbuffer@[i] as int,
                )
            by {
                lemma_flat_index(i, w as int, h as int);
            }
            assert forall|i: int| 0 <= i < fb.buffer@.len() implies
                #[trigger] fb.buffer@[i] == flat_color_after_s(
                    *v0, *v1, *v2, w as int, h as int, i, fb.zbuffer@[i] as int, fb.buffer@[i],
                    *light_dir, is_emissive,
                )
            by {
                lemma_flat_index(i, w as int, h as int);
            }
        }
        return;
    }
    let lox: usize = lox_i as usize;
    let hix: usize = hix_i as usize;
    let loy: usize = loy_i as usize;
    let hiy: usize = hiy_i as usize;
    let ghost z_init = fb.zbuffer@;
    let ghost c_init = fb.buffer@;
    let mut y: usize = loy;
    while y <= hiy
        invariant
            loy <= y <= hiy + 1,
            fb_wf(*fb),
            fb.width == w,
            fb.height == h,
            fb.background_color == old(fb).background_color,
            fb.zbuffer@.len() == z_init.len(),
            fb.buffer@.len() == c_init.len(),
            forall|i: int| 0 <= i < fb.zbuffer@.len()
                ==> #[trigger] fb.zbuffer@[i] == (if scanned_s(i, w as int, lox as int, hix as int, loy as int, y as int, lox as int) {
                    depth_after_s(v0.position, v1.position, v2.position, w as int, h as int, i, z_init[i] as int)
                } else {
                    z_init[i] as int
                }),
            forall|i: int| 0 <= i < fb.buffer@.len()
                ==> #[trigger] fb.buffer@[i] == (if scanned_s(i, w as int, lox as int, hix as int, loy as int, y as int, lox as int) {
                    flat_color_after_s(*v0, *v1, *v2, w as int, h as int, i, z_init[i] as int, c_init[i], *light_dir, is_emissive)
                } else {
                    c_init[i]
                }),
        decreases hiy + 1 - y,
    {
        let mut x: usize = lox;
        while x <= hix
            invariant
                lox <= x <= hix + 1,
                y <= hiy,
                fb_wf(*fb),
                fb.width == w,
                fb.height == h,
                fb.background_color == old(fb).background_color,
                fb.zbuffer@.len() == z_init.len(),
                fb.buffer@.len() == c_init.len(),
                forall|i: int| 0 <= i < fb.zbuffer@.len()
                    ==> #[trigger] fb.zbuffer@[i] == (if scanned_s(i, w as int, lox as int, hix as int, loy as int, y as int, x as int) {
                        depth_after_s(v0.position, v1.position, v2.position, w as int, h as int, i, z_init[i] as int)
                    } else {
                        z_init[i] as int
                    }),
                forall|i: int| 0 <= i < fb.buffer@.len()
                    ==> #[trigger] fb.buffer@[i] == (if scanned_s(i, w as int, lox as int, hix as int, loy as int, y as int, x as int) {
                        flat_color_after_s(*v0, *v1, *v2, w as int, h as int, i, z_init[i] as int, c_init[i], *light_dir, is_emissive)
                    } else {
                        c_init[i]
                    }),
            decreases hix + 1 - x,
        {
            let ghost z_pre = fb.zbuffer@;
            let ghost c_pre = fb.buffer@;
            proof {
                lemma_flat_index_of(x as int, y as int, w as int);
            }
            shade_pixel_flat(fb, v0, v1, v2, light_dir, is_emissive, x, y);
            proof {
                let wi = w as int;
                let idx = (y as int) * wi + (x as int);
                assert forall|i: int| 0 <= i < fb.zbuffer@.len() implies
                    #[trigger] fb.zbuffer@[i] == (if scanned_s(i, wi, lox as int, hix as int, loy as int, y as int, (x + 1) as int) {
                        depth_after_s(v0.position, v1.position, v2.position, wi, h as int, i, z_init[i] as int)
                    } else {
                        z_init[i] as int
                    })
                by {
                    lemma_flat_index(i, wi, h as int);
                }
                assert forall|i: int| 0 <= i < fb.buffer@.len() implies
                    #[trigger] fb.buffer@[i] == (if scanned_s(i, wi, lox as int, hix as int, loy as int, y as int, (x + 1) as int) {
                        flat_color_after_s(*v0, *v1, *v2, wi, h as int, i, z_init[i] as int, c_init[i], *light_dir, is_emissive)
                    } else {
                        c_init[i]
                    })
                by {
                    lemma_flat_index(i, wi, h as int);
                }
            }
            x = x + 1;
        }
        proof {
            assert forall|i: int| 0 <= i < fb.zbuffer@.len() implies
                #[trigger] scanned_s(i, w as int, lox as int, hix as int, loy as int, y as int, (hix + 1) as int)
                    == scanned_s(i, w as int, lox as int, hix as int, loy as int, (y + 1) as int, lox as int)
            by {
                lemma_flat_index(i, w as int, h as int);
            }
        }
        y = y + 1;
    }
    proof {
        assert forall|i: int| 0 <= i < fb.zbuffer@.len() implies
            #[trigger] fb.zbuffer@[i] == depth_after_s(
                v0.position, v1.position, v2.position, w as int, h as int, i, z_init[i] as int,
            )
        by {
            lemma_flat_index(i, w as int, h as int);
            let qx = i % (w as int);
            let qy = i / (w as int);
            if !scanned_s(i, w as int, lox as int, hix as int, loy as int, (hiy + 1) as int, lox as int) {
                if covers_s(v0.position, v1.position, v2.position, w as int, h as int, qx, qy) {
                    lemma_covers_in_bbox(
                        s0.0 as int, s0.1 as int, s1.0 as int, s1.1 as int, s2.0 as int, s2.1 as int,
                        qx, qy,
                    );
                }
            }
        }
        assert forall|i: int| 0 <= i < fb.buffer@.len() implies
            #[trigger] fb.buffer@[i] == flat_color_after_s(
                *v0, *v1, *v2, w as int, h as int, i, z_init[i] as int, c_init[i], *light_dir, is_emissive,
            )
        by {
            lemma_flat_index(i, w as int, h as int);
            let qx = i % (w as int);
            let qy = i / (w as int);
            if !scanned_s(i, w as int, lox as int, hix as int, loy as int, (hiy + 1) as int, lox as int) {
                if covers_s(v0.position, v1.position, v2.position, w as int, h as int, qx, qy) {
                    lemma_covers_in_bbox(
                        s0.0 as int, s0.1 as int, s1.0 as int, s1.1 as int, s2.0 as int, s2.1 as int,
                        qx, qy,
                    );
                }
            }
        }
    }
}

/// The interpolated fragment a triangle presents at a pixel: blended and
/// renormalized world normal, blended local position, and the normalized
/// local position as a stable procedural texture coordinate.
pub open spec fn frag_at_s(
    t0: TransformedVertex, t1: TransformedVertex, t2: TransformedVertex,
    w: int, h: int, px: int, py: int,
) -> FragmentData {
    let area = tri_area_s(t0.screen, t1.screen, t2.screen, w, h);
    let b0 = bary_s(tri_w0_s(t0.screen, t1.screen, t2.screen, w, h, px, py), area);
    let b1 = bary_s(tri_w1_s(t0.screen, t1.screen, t2.screen, w, h, px, py), area);
    let b2 = bary_last_s(
        tri_w0_s(t0.screen, t1.screen, t2.screen, w, h, px, py),
        tri_w1_s(t0.screen, t1.screen, t2.screen, w, h, px, py),
        area,
    );
    let n = vnorm_s(interp_vec_s(t0.normal, t1.normal, t2.normal, b0, b1, b2));
    let local = interp_vec_s(t0.local, t1.local, t2.local, b0, b1, b2);
    FragmentData { position: vnorm_s(local), normal: n, world_pos: local }
}

/// The packed pixel a material produces for a triangle at a pixel.
pub open spec fn shader_color_at_s(
    t0: TransformedVertex, t1: TransformedVertex, t2: TransformedVertex,
    w: int, h: int, px: int, py: int, st: ShaderType, time: int,
) -> u32 {
    let c = apply_shader_s(st, frag_at_s(t0, t1, t2, w, h, px, py), time);
    pack_fx_s(c.r as int, c.g as int, c.b as int)
}

/// The color buffer entry at flat index i after one shaded triangle:
/// updated exactly when the depth entry is.
pub open spec fn shader_color_after_s(
    t0: TransformedVertex, t1: TransformedVertex, t2: TransformedVertex,
    w: int, h: int, i: int, oldz: int, oldc: u32, st: ShaderType, time: int,
) -> u32 {
    let px = i % w;
    let py = i / w;
    if covers_s(t0.screen, t1.screen, t2.screen, w, h, px, py)
        && depth_at_s(t0.screen, t1.screen, t2.screen, w, h, px, py) < oldz {
        shader_color_at_s(t0, t1, t2, w, h, px, py, st, time)
    } else {
        oldc
    }
}

/// Rasterize one pixel of a procedurally shaded triangle.
fn shade_pixel_shader(
    fb: &mut Framebuffer, t0: &TransformedVertex, t1: &TransformedVertex,
    t2: &TransformedVertex, st: ShaderType, time: i64, light: &Vec3, x: usize, y: usize,
)
    requires
        fb_wf(*old(fb)),
        old(fb).width <= MAX_DIM,
        old(fb).height <= MAX_DIM,
        x < old(fb).width,
        y < old(fb).height,
        tvert_wf(*t0),
        tvert_wf(*t1),
        tvert_wf(*t2),
        v_wf(*light),
        fx_wf(time),
    ensures
        fb_wf(*final(fb)),
        final(fb).width == old(fb).width,
        final(fb).height == old(fb).height,
        final(fb).background_color == old(fb).background_color,
        forall|i: int| 0 <= i < final(fb).zbuffer@.len()
            ==> #[trigger] final(fb).zbuffer@[i] == (if i == y * old(fb).width + x {
                depth_after_s(
                    t0.screen, t1.screen, t2.screen,
                    old(fb).width as int, old(fb).height as int, i, old(fb).zbuffer@[i] as int,
                )
            } else {
                old(fb).zbuffer@[i] as int
            }),
        forall|i: int| 0 <= i < final(fb).buffer@.len()
            ==> #[trigger] final(fb).buffer@[i] == (if i == y * old(fb).width + x {
                shader_color_after_s(
                    *t0, *t1, *t2, old(fb).width as int, old(fb).height as int, i,
                    old(fb).zbuffer@[i] as int, old(fb).buffer@[i], st, time as int,
                )
            } else {
                old(fb).buffer@[i]
            }),
{
    let w: usize = fb.width;
    let h: usize = fb.height;
    proof {
        lemma_flat_index_of(x as int, y as int, w as int);
    }
    let s0: (i64, i64) = to_screen(&t0.screen, w, h);
    let s1: (i64, i64) = to_screen(&t1.screen, w, h);
    let s2: (i64, i64) = to_screen(&t2.screen, w, h);
    let area: i64 = edge_function(s0.0, s0.1, s1.0, s1.1, s2.0, s2.1);
    if area == 0 {
        return;
    }
    let pxi: i64 = x as i64;
    let pyi: i64 = y as i64;
    let w0: i64 = edge_function(s1.0, s1.1, s2.0, s2.1, pxi, pyi);
    let w1: i64 = edge_function(s2.0, s2.1, s0.0, s0.1, pxi, pyi);
    let w2: i64 = edge_function(s0.0, s0.1, s1.0, s1.1, pxi, pyi);
    let inside: bool = (w0 >= 0 && w1 >= 0 && w2 >= 0) || (w0 <= 0 && w1 <= 0 && w2 <= 0);
    if !inside {
        return;
    }
    proof {
        lemma_barycentric_unity(
            s0.0 as int, s0.1 as int, s1.0 as int, s1.1 as int, s2.0 as int, s2.1 as int,
            pxi as int, pyi as int,
        );
    }
    let aa: i64 = if area >= 0 { area } else { -area };
    let n0: i64 = if w0 >= 0 { w0 } else { -w0 };
    let n1: i64 = if w1 >= 0 { w1 } else { -w1 };
    let b0: i64 = (n0 * FX_SCALE) / aa;
    let b1: i64 = (n1 * FX_SCALE) / aa;
    let b2: i64 = FX_SCALE - b0 - b1;
    let z: i64 = interp3(t0.screen.z, t1.screen.z, t2.screen.z, b0, b1, b2);
    let normal: Vec3 = interp_vec(&t0.normal, &t1.normal, &t2.normal, b0, b1, b2).normalize();
    let local: Vec3 = interp_vec(&t0.local, &t1.local, &t2.local, b0, b1, b2);
    let frag: FragmentData = FragmentData {
        position: local.normalize(),
        normal,
        world_pos: local,
    };
    let c: Color3 = apply_shader(st, &frag, time, light);
    let color: u32 = rgb_fx_to_u32(c.r, c.g, c.b);
    fb.set_pixel(x, y, z, color);
}

/// Rasterize one procedurally shaded triangle with a bounding-box scan and
/// a depth test: per pixel, where the triangle covers it, the stored depth
/// becomes the minimum of the old and interpolated depths, and the color
/// changes to the material's output exactly when the depth does.
/// Zero-area triangles are skipped entirely.
#[verifier::loop_isolation(false)]
#[verifier::rlimit(100)]
pub fn rasterize_with_shader(
    fb: &mut Framebuffer, t0: &TransformedVertex, t1: &TransformedVertex,
    t2: &TransformedVertex, st: ShaderType, time: i64, light_dir: &Vec3,
)
    requires
        fb_wf(*old(fb)),
        old(fb).width <= MAX_DIM,
        old(fb).height <= MAX_DIM,
        tvert_wf(*t0),
        tvert_wf(*t1),
        tvert_wf(*t2),
        v_wf(*light_dir),
        fx_wf(time),
    ensures
        fb_wf(*final(fb)),
        final(fb).width == old(fb).width,
        final(fb).height == old(fb).height,
        final(fb).background_color == old(fb).background_color,
        forall|i: int| 0 <= i < final(fb).zbuffer@.len()
            ==> #[trigger] final(fb).zbuffer@[i] == depth_after_s(
                t0.screen, t1.screen, t2.screen,
                old(fb).width as int, old(fb).height as int, i, old(fb).zbuffer@[i] as int,
            ),
        forall|i: int| 0 <= i < final(fb).buffer@.len()
            ==> #[trigger] final(fb).buffer@[i] == shader_color_after_s(
                *t0, *t1, *t2, old(fb).width as int, old(fb).height as int, i,
                old(fb).zbuffer@[i] as int, old(fb).buffer@[i], st, time as int,
            ),
{
    let w: usize = fb.width;
    let h: usize = fb.height;
    if w == 0 || h == 0 {
        proof {
            assert(w * h == 0) by (nonlinear_arith)
                requires
                    w == 0 || h == 0,
            ;
        }
        return;
    }
    let s0: (i64, i64) = to_screen(&t0.screen, w, h);
    let s1: (i64, i64) = to_screen(&t1.screen, w, h);
    let s2: (i64, i64) = to_screen(&t2.screen, w, h);
    let area: i64 = edge_function(s0.0, s0.1, s1.0, s1.1, s2.0, s2.1);
    if area == 0 {
        return;
    }
    let minx: i64 = if s0.0 <= s1.0 && s0.0 <= s2.0 { s0.0 } else if s1.0 <= s2.0 { s1.0 } else { s2.0 };
    let maxx: i64 = if s0.0 >= s1.0 && s0.0 >= s2.0 { s0.0 } else if s1.0 >= s2.0 { s1.0 } else { s2.0 };
    let miny: i64 = if s0.1 <= s1.1 && s0.1 <= s2.1 { s0.1 } else if s1.1 <= s2.1 { s1.1 } else { s2.1 };
    let maxy: i64 = if s0.1 >= s1.1 && s0.1 >= s2.1 { s0.1 } else if s1.1 >= s2.1 { s1.1 } else { s2.1 };
    let lox_i: i64 = if minx < 0 { 0 } else { minx };
    let hix_i: i64 = if maxx > (w as i64) - 1 { (w as i64) - 1 } else { maxx };
    let loy_i: i64 = if miny < 0 { 0 } else { miny };
    let hiy_i: i64 = if maxy > (h as i64) - 1 { (h as i64) - 1 } else { maxy };
    if lox_i > hix_i || loy_i > hiy_i {
        proof {
            assert forall|qx: int, qy: int| 0 <= qx < w && 0 <= qy < h implies
                !(#[trigger] covers_s(t0.screen, t1.screen, t2.screen, w as int, h as int, qx, qy))
            by {
                if covers_s(t0.screen, t1.screen, t2.screen, w as int, h as int, qx, qy) {
                    lemma_covers_in_bbox(
                        s0.0 as int, s0.1 as int, s1.0 as int, s1.1 as int, s2.0 as int, s2.1 as int,
                        qx, qy,
                    );
                }
            }
            assert forall|i: int| 0 <= i < fb.zbuffer@.len() implies
                #[trigger] fb.zbuffer@[i] == depth_after_s(
                    t0.screen, t1.screen, t2.screen, w as int, h as int, i, fb.zbuffer@[i] as int,
                )
            by {
                lemma_flat_index(i, w as int, h as int);
            }
            assert forall|i: int| 0 <= i < fb.buffer@.len() implies
                #[trigger] fb.buffer@[i] == shader_color_after_s(
                    *t0, *t1, *t2, w as int, h as int, i, fb.zbuffer@[i] as int, fb.buffer@[i],
                    st, time as int,
                )
            by {
                lemma_flat_index(i, w as int, h as int);
            }
        }
        return;
    }
    let lox: usize = lox_i as usize;
    let hix: usize = hix_i as usize;
    let loy: usize = loy_i as usize;
    let hiy: usize = hiy_i as usize;
    let ghost z_init = fb.zbuffer@;
    let ghost c_init = fb.buffer@;
    let mut y: usize = loy;
    while y <= hiy
        invariant
            loy <= y <= hiy + 1,
            fb_wf(*fb),
            fb.width == w,
            fb.height == h,
            fb.background_color == old(fb).background_color,
            fb.zbuffer@.len() == z_init.len(),
            fb.buffer@.len() == c_init.len(),
            forall|i: int| 0 <= i < fb.zbuffer@.len()
                ==> #[trigger] fb.zbuffer@[i] == (if scanned_s(i, w as int, lox as int, hix as int, loy as int, y as int, lox as int) {
                    depth_after_s(t0.screen, t1.screen, t2.screen, w as int, h as int, i, z_init[i] as int)
                } else {
                    z_init[i] as int
                }),
            forall|i: int| 0 <= i < fb.buffer@.len()
                ==> #[trigger] fb.buffer@[i] == (if scanned_s(i, w as int, lox as int, hix as int, loy as int, y as int, lox as int) {
                    shader_color_after_s(*t0, *t1, *t2, w as int, h as int, i, z_init[i] as int, c_init[i], st, time as int)
                } else {
                    c_init[i]
                }),
        decreases hiy + 1 - y,
    {
        let mut x: usize = lox;
        while x <= hix
            invariant
                lox <= x <= hix + 1,
                y <= hiy,
                fb_wf(*fb),
                fb.width == w,
                fb.height == h,
                fb.background_color == old(fb).background_color,
                fb.zbuffer@.len() == z_init.len(),
                fb.buffer@.len() == c_init.len(),
                forall|i: int| 0 <= i < fb.zbuffer@.len()
                    ==> #[trigger] fb.zbuffer@[i] == (if scanned_s(i, w as int, lox as int, hix as int, loy as int, y as int, x as int) {
                        depth_after_s(t0.screen, t1.screen, t2.screen, w as int, h as int, i, z_init[i] as int)
                    } else {
                        z_init[i] as int
                    }),
                forall|i: int| 0 <= i < fb.buffer@.len()
                    ==> #[trigger] fb.buffer@[i] == (if scanned_s(i, w as int, lox as int, hix as int, loy as int, y as int, x as int) {
                        shader_color_after_s(*t0, *t1, *t2, w as int, h as int, i, z_init[i] as int, c_init[i], st, time as int)
                    } else {
                        c_init[i]
                    }),
            decreases hix + 1 - x,
        {
            proof {
                lemma_flat_index_of(x as int, y as int, w as int);
            }
            shade_pixel_shader(fb, t0, t1, t2, st, time, light_dir, x, y);
            proof {
                let wi = w as int;
                assert forall|i: int| 0 <= i < fb.zbuffer@.len() implies
                    #[trigger] fb.zbuffer@[i] == (if scanned_s(i, wi, lox as int, hix as int, loy as int, y as int, (x + 1) as int) {
                        depth_after_s(t0.screen, t1.screen, t2.screen, wi, h as int, i, z_init[i] as int)
                    } else {
                        z_init[i] as int
                    })
                by {
                    lemma_flat_index(i, wi, h as int);
                }
                assert forall|i: int| 0 <= i < fb.buffer@.len() implies
                    #[trigger] fb.buffer@[i] == (if scanned_s(i, wi, lox as int, hix as int, loy as int, y as int, (x + 1) as int) {
                        shader_color_after_s(*t0, *t1, *t2, wi, h as int, i, z_init[i] as int, c_init[i], st, time as int)
                    } else {
                        c_init[i]
                    })
                by {
                    lemma_flat_index(i, wi, h as int);
                }
            }
            x = x + 1;
        }
        proof {
            assert forall|i: int| 0 <= i < fb.zbuffer@.len() implies
                #[trigger] scanned_s(i, w as int, lox as int, hix as int, loy as int, y as int, (hix + 1) as int)
                    == scanned_s(i, w as int, lox as int, hix as int, loy as int, (y + 1) as int, lox as int)
            by {
                lemma_flat_index(i, w as int, h as int);
            }
        }
        y = y + 1;
    }
    proof {
        assert forall|i: int| 0 <= i < fb.zbuffer@.len() implies
            #[trigger] fb.zbuffer@[i] == depth_after_s(
                t0.screen, t1.screen, t2.screen, w as int, h as int, i, z_init[i] as int,
            )
        by {
            lemma_flat_index(i, w as int, h as int);
            let qx = i % (w as int);
            let qy = i / (w as int);
            if !scanned_s(i, w as int, lox as int, hix as int, loy as int, (hiy + 1) as int, lox as int) {
                if covers_s(t0.screen, t1.screen, t2.screen, w as int, h as int, qx, qy) {
                    lemma_covers_in_bbox(
                        s0.0 as int, s0.1 as int, s1.0 as int, s1.1 as int, s2.0 as int, s2.1 as int,
                        qx, qy,
                    );
                }
            }
        }
        assert forall|i: int| 0 <= i < fb.buffer@.len() implies
            #[trigger] fb.buffer@[i] == shader_color_after_s(
                *t0, *t1, *t2, w as int, h as int, i, z_init[i] as int, c_init[i], st, time as int,
            )
        by {
            lemma_flat_index(i, w as int, h as int);
            let qx = i % (w as int);
            let qy = i / (w as int);
            if !scanned_s(i, w as int, lox as int, hix as int, loy as int, (hiy + 1) as int, lox as int) {
                if covers_s(t0.screen, t1.screen, t2.screen, w as int, h as int, qx, qy) {
                    lemma_covers_in_bbox(
                        s0.0 as int, s0.1 as int, s1.0 as int, s1.1 as int, s2.0 as int, s2.1 as int,
                        qx, qy,
                    );
                }
            }
        }
    }
}

/// A triangle of transformed vertices: the unit of rasterization.
#[derive(Clone, Copy, Debug, PartialEq, Eq, Structural)]
pub struct Triangle {
    pub a: TransformedVertex,
    pub b: TransformedVertex,
    pub c: TransformedVertex,
}

/// All three vertices are well formed.
pub open spec fn tri_wf(t: Triangle) -> bool {
    tvert_wf(t.a) && tvert_wf(t.b) && tvert_wf(t.c)
}

/// The depth entry of pixel (qx, qy) in a row-major depth buffer.
pub open spec fn zat(zb: Seq<i64>, w: int, qx: int, qy: int) -> int {
    zb[qy * w + qx] as int
}

/// The color entry of pixel (qx, qy) in a row-major color buffer.
pub open spec fn cat(cb: Seq<u32>, w: int, qx: int, qy: int) -> u32 {
    cb[qy * w + qx]
}

/// Whether a triangle covers the pixel (qx, qy) on a w-by-h screen.
pub open spec fn tri_covers_s(t: Triangle, w: int, h: int, qx: int, qy: int) -> bool {
    covers_s(t.a.screen, t.b.screen, t.c.screen, w, h, qx, qy)
}

/// The depth a triangle takes at pixel (qx, qy).
pub open spec fn tri_depth_s(t: Triangle, w: int, h: int, qx: int, qy: int) -> int {
    depth_at_s(t.a.screen, t.b.screen, t.c.screen, w, h, qx, qy)
}

/// The shaded color a triangle takes at pixel (qx, qy).
pub open spec fn tri_color_s(t: Triangle, w: int, h: int, qx: int, qy: int, st: ShaderType, time: int) -> u32 {
    shader_color_at_s(t.a, t.b, t.c, w, h, qx, qy, st, time)
}

/// Every pixel of the buffers either still holds its starting depth and
/// color, or holds the interpolated depth and shaded color of one of the
/// first kk triangles covering it.
pub open spec fn mesh_witness_s(
    zb: Seq<i64>, cb: Seq<u32>, z0: Seq<i64>, c0: Seq<u32>, tris: Seq<Triangle>, kk: int,
    w: int, h: int, st: ShaderType, time: int,
) -> bool {
    forall|qx: int, qy: int| 0 <= qx < w && 0 <= qy < h
        ==> (#[trigger] zat(zb, w, qx, qy) == zat(z0, w, qx, qy)
                && cat(cb, w, qx, qy) == cat(c0, w, qx, qy))
            || exists|j: int| 0 <= j < kk
                && #[trigger] tri_covers_s(tris[j], w, h, qx, qy)
                && zat(zb, w, qx, qy) == tri_depth_s(tris[j], w, h, qx, qy)
                && cat(cb, w, qx, qy) == tri_color_s(tris[j], w, h, qx, qy, st, time)
}

/// Rasterize a whole list of triangles. The final depth of every pixel is
/// the minimum of the cleared depth and the interpolated depths of all the
/// triangles that cover that pixel — a characterization independent of the
/// order the triangles were drawn in, even though intermediate buffer
/// states are order-dependent: depths only ever decrease, the final depth
/// is a lower bound for every covering triangle, and it is witnessed by the
/// old depth or by some covering triangle. Colors move with depths: every
/// pixel either keeps both its old color and old depth, or shows the shaded
/// color of a covering triangle whose interpolated depth is the final one.
#[verifier::loop_isolation(false)]
#[verifier::rlimit(100)]
pub fn render_mesh(
    fb: &mut Framebuffer, tris: &Vec<Triangle>, st: ShaderType, time: i64, light_dir: &Vec3,
)
    requires
        fb_wf(*old(fb)),
        old(fb).width <= MAX_DIM,
        old(fb).height <= MAX_DIM,
        forall|j: int| 0 <= j < tris@.len() ==> tri_wf(#[trigger] tris@[j]),
        v_wf(*light_dir),
        fx_wf(time),
    ensures
        fb_wf(*final(fb)),
        final(fb).width == old(fb).width,
        final(fb).height == old(fb).height,
        final(fb).background_color == old(fb).background_color,
        forall|qx: int, qy: int| 0 <= qx < old(fb).width && 0 <= qy < old(fb).height
            ==> #[trigger] zat(final(fb).zbuffer@, old(fb).width as int, qx, qy)
                <= zat(old(fb).zbuffer@, old(fb).width as int, qx, qy),
        forall|qx: int, qy: int, j: int| 0 <= qx < old(fb).width && 0 <= qy < old(fb).height
            && 0 <= j < tris@.len()
            && #[trigger] tri_covers_s(tris@[j], old(fb).width as int, old(fb).height as int, qx, qy)
            ==> zat(final(fb).zbuffer@, old(fb).width as int, qx, qy)
                <= tri_depth_s(tris@[j], old(fb).width as int, old(fb).height as int, qx, qy),
        forall|qx: int, qy: int| 0 <= qx < old(fb).width && 0 <= qy < old(fb).height
            ==> (#[trigger] zat(final(fb).zbuffer@, old(fb).width as int, qx, qy)
                    == zat(old(fb).zbuffer@, old(fb).width as int, qx, qy)
                && cat(final(fb).buffer@, old(fb).width as int, qx, qy)
                    == cat(old(fb).buffer@, old(fb).width as int, qx, qy))
                || exists|j: int| 0 <= j < tris@.len()
                    && #[trigger] tri_covers_s(tris@[j], old(fb).width as int, old(fb).height as int, qx, qy)
                    && zat(final(fb).zbuffer@, old(fb).width as int, qx, qy)
                        == tri_depth_s(tris@[j], old(fb).width as int, old(fb).height as int, qx, qy)
                    && cat(final(fb).buffer@, old(fb).width as int, qx, qy)
                        == tri_color_s(tris@[j], old(fb).width as int, old(fb).height as int, qx, qy, st, time as int),
{
    let w: usize = fb.width;
    let h: usize = fb.height;
    let ghost z0 = fb.zbuffer@;
    let ghost c0 = fb.buffer@;
    let n: usize = tris.len();
    let mut k: usize = 0;
    while k < n
        invariant
            0 <= k <= n,
            n == tris@.len(),
            fb_wf(*fb),
            fb.width == w,
            fb.height == h,
            fb.background_color == old(fb).background_color,
            fb.zbuffer@.len() == z0.len(),
            fb.buffer@.len() == c0.len(),
            forall|qx: int, qy: int| 0 <= qx < w && 0 <= qy < h
                ==> #[trigger] zat(fb.zbuffer@, w as int, qx, qy) <= zat(z0, w as int, qx, qy),
            forall|qx: int, qy: int, j: int| 0 <= qx < w && 0 <= qy < h && 0 <= j < k
                && #[trigger] tri_covers_s(tris@[j], w as int, h as int, qx, qy)
                ==> zat(fb.zbuffer@, w as int, qx, qy) <= tri_depth_s(tris@[j], w as int, h as int, qx, qy),
            mesh_witness_s(fb.zbuffer@, fb.buffer@, z0, c0, tris@, k as int, w as int, h as int, st, time as int),
        decreases n - k,
    {
        let t: Triangle = tris[k];
        let ghost z_pre = fb.zbuffer@;
        let ghost c_pre = fb.buffer@;
        proof {
            assert(mesh_witness_s(z_pre, c_pre, z0, c0, tris@, k as int, w as int, h as int, st, time as int));
        }
        rasterize_with_shader(fb, &t.a, &t.b, &t.c, st, time, light_dir);
        proof {
            if w > 0 && h > 0 {
                assert forall|qx: int, qy: int| 0 <= qx < w && 0 <= qy < h implies
                    #[trigger] zat(fb.zbuffer@, w as int, qx, qy) <= zat(z_pre, w as int, qx, qy)
                    && ((zat(fb.zbuffer@, w as int, qx, qy) == zat(z_pre, w as int, qx, qy)
                            && cat(fb.buffer@, w as int, qx, qy) == cat(c_pre, w as int, qx, qy))
                        || (tri_covers_s(t, w as int, h as int, qx, qy)
                            && zat(fb.zbuffer@, w as int, qx, qy) == tri_depth_s(t, w as int, h as int, qx, qy)
                            && cat(fb.buffer@, w as int, qx, qy) == tri_color_s(t, w as int, h as int, qx, qy, st, time as int)))
                    && (tri_covers_s(t, w as int, h as int, qx, qy)
                        ==> zat(fb.zbuffer@, w as int, qx, qy) <= tri_depth_s(t, w as int, h as int, qx, qy))
                by {
                    crate::framebuffer::lemma_row_major_index(qx, qy, w as int, h as int);
                    lemma_flat_index_of(qx, qy, w as int);
                }
                assert forall|qx: int, qy: int| 0 <= qx < w && 0 <= qy < h implies
                    (#[trigger] zat(fb.zbuffer@, w as int, qx, qy) == zat(z0, w as int, qx, qy)
                        && cat(fb.buffer@, w as int, qx, qy) == cat(c0, w as int, qx, qy))
                    || exists|j: int| 0 <= j < k + 1
                        && #[trigger] tri_covers_s(tris@[j], w as int, h as int, qx, qy)
                        && zat(fb.zbuffer@, w as int, qx, qy) == tri_depth_s(tris@[j], w as int, h as int, qx, qy)
                        && cat(fb.buffer@, w as int, qx, qy) == tri_color_s(tris@[j], w as int, h as int, qx, qy, st, time as int)
                by {
                    assert(mesh_witness_s(z_pre, c_pre, z0, c0, tris@, k as int, w as int, h as int, st, time as int));
                    crate::framebuffer::lemma_row_major_index(qx, qy, w as int, h as int);
                    let zp = zat(z_pre, w as int, qx, qy);
                    let cp = cat(c_pre, w as int, qx, qy);
                    if zat(fb.zbuffer@, w as int, qx, qy) == zp {
                        // The pixel was untouched this round; the previous
                        // witness (or the untouched-since-start case) carries.
                        assert(cat(fb.buffer@, w as int, qx, qy) == cp);
                    } else {
                        // This triangle wrote the pixel: it is the witness.
                        assert(tri_covers_s(tris@[k as int], w as int, h as int, qx, qy)
                            && zat(fb.zbuffer@, w as int, qx, qy) == tri_depth_s(tris@[k as int], w as int, h as int, qx, qy)
                            && cat(fb.buffer@, w as int, qx, qy) == tri_color_s(tris@[k as int], w as int, h as int, qx, qy, st, time as int));
                    }
                }
                assert(mesh_witness_s(fb.zbuffer@, fb.buffer@, z0, c0, tris@, k + 1, w as int, h as int, st, time as int));
            } else {
                assert(mesh_witness_s(fb.zbuffer@, fb.buffer@, z0, c0, tris@, k + 1, w as int, h as int, st, time as int));
            }
        }
        k = k + 1;
    }
    proof {
        assert(mesh_witness_s(fb.zbuffer@, fb.buffer@, z0, c0, tris@, n as int, w as int, h as int, st, time as int));
        assert forall|qx: int, qy: int| 0 <= qx < w && 0 <= qy < h implies
            (#[trigger] zat(fb.zbuffer@, w as int, qx, qy) == zat(z0, w as int, qx, qy)
                && cat(fb.buffer@, w as int, qx, qy) == cat(c0, w as int, qx, qy))
            || exists|j: int| 0 <= j < tris@.len()
                && #[trigger] tri_covers_s(tris@[j], w as int, h as int, qx, qy)
                && zat(fb.zbuffer@, w as int, qx, qy) == tri_depth_s(tris@[j], w as int, h as int, qx, qy)
                && cat(fb.buffer@, w as int, qx, qy) == tri_color_s(tris@[j], w as int, h as int, qx, qy, st, time as int)
        by {
        }
    }
}

/// Face normal of a screen-space triangle, for back-face culling.
pub fn calculate_face_normal(v0: &Vec3, v1: &Vec3, v2: &Vec3) -> (n: Vec3)
    requires
        v_wf(*v0),
        v_wf(*v1),
        v_wf(*v2),
    ensures
        n == vnorm_s(vcross_s(vsub_s(*v1, *v0), vsub_s(*v2, *v0))),
        v_wf(n),
{
    let edge1: Vec3 = v1.sub(v0);
    let edge2: Vec3 = v2.sub(v0);
    edge1.cross(&edge2).normalize()
}

/// NDC visibility margin: 1.5 on x and y.
pub const VISIBLE_MARGIN: i64 = 98304;

/// Whether an NDC point lies in the loosely widened view volume:
/// x and y within [-1.5, 1.5], z within [0, 1].
pub fn is_visible(p: &Vec3) -> (r: bool)
    ensures
        r == (-VISIBLE_MARGIN <= p.x <= VISIBLE_MARGIN && -VISIBLE_MARGIN <= p.y <= VISIBLE_MARGIN
            && 0 <= p.z <= FX_ONE),
{
    p.x >= -VISIBLE_MARGIN && p.x <= VISIBLE_MARGIN && p.y >= -VISIBLE_MARGIN
        && p.y <= VISIBLE_MARGIN && p.z >= 0 && p.z <= FX_ONE
}

/// Draw a line with integer Bresenham stepping, writing color with no
/// depth test, clipped to the framebuffer. The walk is clamped at the
/// endpoint coordinates so it always lands exactly on the far endpoint.
/// The depth buffer and the dimensions are untouched; every color entry
/// either keeps its value or takes the line's color, and both endpoint
/// pixels take the color whenever they lie in bounds.
#[verifier::loop_isolation(false)]
#[verifier::rlimit(100)]
#[verifier::spinoff_prover]
pub fn draw_line(fb: &mut Framebuffer, x0: i64, y0: i64, x1: i64, y1: i64, color: u32)
    requires
        fb_wf(*old(fb)),
        -65536 <= x0 <= 65536,
        -65536 <= y0 <= 65536,
        -65536 <= x1 <= 65536,
        -65536 <= y1 <= 65536,
    ensures
        fb_wf(*final(fb)),
        final(fb).width == old(fb).width,
        final(fb).height == old(fb).height,
        final(fb).background_color == old(fb).background_color,
        final(fb).zbuffer@ == old(fb).zbuffer@,
        forall|i: int| 0 <= i < final(fb).buffer@.len()
            ==> #[trigger] final(fb).buffer@[i] == old(fb).buffer@[i]
                || final(fb).buffer@[i] == color,
        0 <= x0 < old(fb).width && 0 <= y0 < old(fb).height
            ==> final(fb).buffer@[y0 * old(fb).width + x0] == color,
        0 <= x1 < old(fb).width && 0 <= y1 < old(fb).height
            ==> final(fb).buffer@[y1 * old(fb).width + x1] == color,
        forall|k: int| 0 <= k < bresenham_path_s(x0 as int, y0 as int, x1 as int, y1 as int).len()
            && 0 <= (#[trigger] bresenham_path_s(x0 as int, y0 as int, x1 as int, y1 as int)[k]).0 < old(fb).width
            && 0 <= bresenham_path_s(x0 as int, y0 as int, x1 as int, y1 as int)[k].1 < old(fb).height
            ==> final(fb).buffer@[
                    bresenham_path_s(x0 as int, y0 as int, x1 as int, y1 as int)[k].1 * old(fb).width
                    + bresenham_path_s(x0 as int, y0 as int, x1 as int, y1 as int)[k].0
                ] == color,
{
    let dx: i64 = if x1 >= x0 { x1 - x0 } else { x0 - x1 };
    let dy: i64 = if y1 >= y0 { y0 - y1 } else { y1 - y0 };
    let sx: i64 = if x0 < x1 { 1 } else { -1 };
    let sy: i64 = if y0 < y1 { 1 } else { -1 };
    let mut err: i64 = dx + dy;
    let mut x: i64 = x0;
    let mut y: i64 = y0;
    let ghost span: int = dx - dy;
    let ghost bp = bresenham_path_s(x0 as int, y0 as int, x1 as int, y1 as int);
    let ghost mut done: int = 0;
    let ghost mut fuel: nat = span as nat;
    proof {
        reveal(bresenham_path_s);
        assert(bp == line_path_s(x0 as int, y0 as int, (dx + dy) as int, x1 as int, y1 as int,
            dx as int, dy as int, sx as int, sy as int, span as nat));
    }
    while x != x1 || y != y1
        invariant
            fb_wf(*fb),
            fb.width == old(fb).width,
            fb.height == old(fb).height,
            fb.background_color == old(fb).background_color,
            fb.zbuffer@ == old(fb).zbuffer@,
            0 <= dx <= 0x4_0000,
            -0x4_0000 <= dy <= 0,
            span == dx - dy,
            (x0 <= x1 ==> x0 <= x <= x1) && (x0 > x1 ==> x1 <= x <= x0),
            (y0 <= y1 ==> y0 <= y <= y1) && (y0 > y1 ==> y1 <= y <= y0),
            sx == (if x0 < x1 { 1int } else { -1int }),
            sy == (if y0 < y1 { 1int } else { -1int }),
            line_rem_s(x as int, y as int, x1 as int, y1 as int) <= span,
            -0x8_0000 - (span - line_rem_s(x as int, y as int, x1 as int, y1 as int)) * 0x8_0000
                <= err
                <= 0x8_0000 + (span - line_rem_s(x as int, y as int, x1 as int, y1 as int)) * 0x8_0000,
            forall|i: int| 0 <= i < fb.buffer@.len()
                ==> #[trigger] fb.buffer@[i] == old(fb).buffer@[i] || fb.buffer@[i] == color,
            (x != x0 || y != y0) && 0 <= x0 < fb.width && 0 <= y0 < fb.height
                ==> fb.buffer@[y0 * fb.width + x0] == color,
            0 <= done,
            fuel == span - done,
            fuel >= line_rem_s(x as int, y as int, x1 as int, y1 as int),
            bp.len() == done + line_path_s(x as int, y as int, err as int, x1 as int, y1 as int,
                dx as int, dy as int, sx as int, sy as int, fuel).len(),
            forall|i: int| 0 <= i < line_path_s(x as int, y as int, err as int, x1 as int, y1 as int,
                    dx as int, dy as int, sx as int, sy as int, fuel).len()
                ==> bp[done + i] == #[trigger] line_path_s(x as int, y as int, err as int,
                        x1 as int, y1 as int, dx as int, dy as int, sx as int, sy as int, fuel)[i],
            forall|k: int| 0 <= k < done && 0 <= (#[trigger] bp[k]).0 < fb.width && 0 <= bp[k].1 < fb.height
                ==> fb.buffer@[bp[k].1 * fb.width + bp[k].0] == color,
        decreases line_rem_s(x as int, y as int, x1 as int, y1 as int),
    {
        if x >= 0 && y >= 0 {
            let ux: usize = x as usize;
            let uy: usize = y as usize;
            if ux < fb.width && uy < fb.height {
                fb.set_pixel_no_depth(ux, uy, color);
            }
        }
        let ghost rem_pre: int = line_rem_s(x as int, y as int, x1 as int, y1 as int);
        let ghost px_ = x as int;
        let ghost py_ = y as int;
        let ghost perr = err as int;
        let ghost suffix = line_path_s(px_, py_, perr, x1 as int, y1 as int, dx as int, dy as int,
            sx as int, sy as int, fuel);
        proof {
            if 0 <= x0 < fb.width && 0 <= y0 < fb.height {
                crate::framebuffer::lemma_row_major_index(
                    x0 as int, y0 as int, fb.width as int, fb.height as int,
                );
            }
            if 0 <= x < fb.width && 0 <= y < fb.height {
                crate::framebuffer::lemma_row_major_index(
                    x as int, y as int, fb.width as int, fb.height as int,
                );
            }
            assert(suffix[0] == (px_, py_) && suffix.len() >= 1) by {
                reveal(line_path_s);
            }
            assert(bp[done] == (px_, py_));
            assert(0 <= (span - rem_pre) * 0x8_0000 <= 0x8_0001 * 0x8_0000) by (nonlinear_arith)
                requires
                    0 <= span - rem_pre <= 0x8_0001,
            ;
            assert((span - (rem_pre - 1)) * 0x8_0000 == (span - rem_pre) * 0x8_0000 + 0x8_0000
                && (span - (rem_pre - 2)) * 0x8_0000 == (span - rem_pre) * 0x8_0000 + 0x10_0000)
                by (nonlinear_arith);
        }
        let e2: i64 = 2 * err;
        let step_x: bool = x != x1 && (e2 >= dy || y == y1);
        let step_y: bool = y != y1 && (e2 <= dx || x == x1);
        if step_x {
            err = err + dy;
            x = x + sx;
        }
        if step_y {
            err = err + dx;
            y = y + sy;
        }
        proof {
            let tail = line_path_s(x as int, y as int, err as int, x1 as int, y1 as int,
                dx as int, dy as int, sx as int, sy as int, (fuel - 1) as nat);
            assert(suffix == seq![(px_, py_)] + tail) by {
                reveal(line_path_s);
            }
            assert forall|j: int| 0 <= j < tail.len() implies
                bp[done + 1 + j] == #[trigger] tail[j]
            by {
                assert(suffix[1 + j] == tail[j]);
                assert(bp[done + (1 + j)] == suffix[1 + j]);
            }
            assert(bp.len() == done + 1 + tail.len());
            done = done + 1;
            fuel = (fuel - 1) as nat;
            assert(line_path_s(x as int, y as int, err as int, x1 as int, y1 as int,
                dx as int, dy as int, sx as int, sy as int, fuel) == tail);
            assert(bp.len() == done + tail.len());
            assert forall|i: int| 0 <= i < tail.len() implies
                bp[done + i] == #[trigger] tail[i]
            by {
            }
            assert forall|k: int| 0 <= k < done && 0 <= (#[trigger] bp[k]).0 < fb.width
                && 0 <= bp[k].1 < fb.height implies
                fb.buffer@[bp[k].1 * fb.width + bp[k].0] == color
            by {
                crate::framebuffer::lemma_row_major_index(
                    bp[k].0, bp[k].1, fb.width as int, fb.height as int,
                );
                if k == done - 1 {
                    assert(bp[k] == (px_, py_));
                }
            }
        }
    }
    proof {
        let suffix_end = line_path_s(x as int, y as int, err as int, x1 as int, y1 as int,
            dx as int, dy as int, sx as int, sy as int, fuel);
        assert(suffix_end == seq![(x1 as int, y1 as int)]) by {
            reveal(line_path_s);
        }
        assert(bp.len() == done + 1);
        assert(bp[done] == suffix_end[0]);
        assert(bp[done] == (x1 as int, y1 as int));
    }
    if x1 >= 0 && y1 >= 0 {
        let ux: usize = x1 as usize;
        let uy: usize = y1 as usize;
        if ux < fb.width && uy < fb.height {
            fb.set_pixel_no_depth(ux, uy, color);
        }
    }
    proof {
        if 0 <= x0 < fb.width && 0 <= y0 < fb.height {
            crate::framebuffer::lemma_row_major_index(
                x0 as int, y0 as int, fb.width as int, fb.height as int,
            );
        }
        if 0 <= x1 < fb.width && 0 <= y1 < fb.height {
            crate::framebuffer::lemma_row_major_index(
                x1 as int, y1 as int, fb.width as int, fb.height as int,
            );
        }
        assert forall|k: int| 0 <= k < bp.len() && 0 <= (#[trigger] bp[k]).0 < fb.width
            && 0 <= bp[k].1 < fb.height implies
            fb.buffer@[bp[k].1 * fb.width + bp[k].0] == color
        by {
            crate::framebuffer::lemma_row_major_index(
                bp[k].0, bp[k].1, fb.width as int, fb.height as int,
            );
            if k == done {
                assert(bp[k] == (x1 as int, y1 as int));
            }
        }
    }
}

/// How many axis steps remain before a line walk reaches its endpoint.
pub open spec fn line_rem_s(x: int, y: int, x1: int, y1: int) -> int {
    (if x1 >= x { x1 - x } else { x - x1 }) + (if y1 >= y { y1 - y } else { y - y1 })
}

/// The pixels a clamped Bresenham walk visits from the given state until
/// it reaches the endpoint; the fuel only bounds the recursion, and a walk
/// whose fuel covers its remaining distance never runs out.
#[verifier::opaque]
pub open spec fn line_path_s(
    x: int, y: int, err: int, x1: int, y1: int, dx: int, dy: int, sx: int, sy: int, fuel: nat,
) -> Seq<(int, int)>
    decreases fuel,
{
    if (x == x1 && y == y1) || fuel == 0 {
        seq![(x, y)]
    } else {
        let e2 = 2 * err;
        let stepx = x != x1 && (e2 >= dy || y == y1);
        let stepy = y != y1 && (e2 <= dx || x == x1);
        seq![(x, y)] + line_path_s(
            if stepx { x + sx } else { x },
            if stepy { y + sy } else { y },
            err + (if stepx { dy } else { 0 }) + (if stepy { dx } else { 0 }),
            x1, y1, dx, dy, sx, sy, (fuel - 1) as nat,
        )
    }
}

/// The pixels the line from (x0, y0) to (x1, y1) visits.
#[verifier::opaque]
pub open spec fn bresenham_path_s(x0: int, y0: int, x1: int, y1: int) -> Seq<(int, int)> {
    let dx = if x1 >= x0 { x1 - x0 } else { x0 - x1 };
    let dy = if y1 >= y0 { y0 - y1 } else { y1 - y0 };
    line_path_s(
        x0, y0, dx + dy, x1, y1, dx, dy,
        if x0 < x1 { 1int } else { -1int },
        if y0 < y1 { 1int } else { -1int },
        (dx - dy) as nat,
    )
}
/// Nonnegative weights with a positive sum cannot blend strictly negative
/// values (or strictly positive ones) to zero.
proof fn lemma_weighted_zero_sum(w0: int, w1: int, w2: int, d0: int, d1: int, d2: int)
    requires
        w0 >= 0,
        w1 >= 0,
        w2 >= 0,
        w0 + w1 + w2 > 0,
        w0 * d0 + w1 * d1 + w2 * d2 == 0,
    ensures
        d0 >= 0 || d1 >= 0 || d2 >= 0,
        d0 <= 0 || d1 <= 0 || d2 <= 0,
{
    if d0 < 0 && d1 < 0 && d2 < 0 {
        assert(w0 * d0 <= 0 && w1 * d1 <= 0 && w2 * d2 <= 0) by (nonlinear_arith)
            requires
                w0 >= 0 && w1 >= 0 && w2 >= 0 && d0 < 0 && d1 < 0 && d2 < 0,
        ;
        assert(w0 > 0 || w1 > 0 || w2 > 0);
        assert(w0 > 0 ==> w0 * d0 < 0) by (nonlinear_arith)
            requires
                d0 < 0,
        ;
        assert(w1 > 0 ==> w1 * d1 < 0) by (nonlinear_arith)
            requires
                d1 < 0,
        ;
        assert(w2 > 0 ==> w2 * d2 < 0) by (nonlinear_arith)
            requires
                d2 < 0,
        ;
    }
    if d0 > 0 && d1 > 0 && d2 > 0 {
        assert(w0 * d0 >= 0 && w1 * d1 >= 0 && w2 * d2 >= 0) by (nonlinear_arith)
            requires
                w0 >= 0 && w1 >= 0 && w2 >= 0 && d0 > 0 && d1 > 0 && d2 > 0,
        ;
        assert(w0 > 0 ==> w0 * d0 > 0) by (nonlinear_arith)
            requires
                d0 > 0,
        ;
        assert(w1 > 0 ==> w1 * d1 > 0) by (nonlinear_arith)
            requires
                d1 > 0,
        ;
        assert(w2 > 0 ==> w2 * d2 > 0) by (nonlinear_arith)
            requires
                d2 > 0,
        ;
    }
}

} // verus!
