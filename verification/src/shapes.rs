//! Mesh generation: UV spheres for planetary bodies and orbit rings.

use vstd::prelude::*;
use crate::fx::{
    fx_wf, fx_add_s, fx_mul_s, fx_div_s, fx_sin_s, fx_cos_s,
    fx_add, fx_mul, fx_div, fx_sin, fx_cos, fx_min, FX_ONE, FX_HALF, FX_PI, FX_TAU, FX_SCALE,
};
use crate::vec3::{Vec3, v_wf, vnorm_s};
use crate::vertex::{Vertex, vert_wf, Color3, color_wf};

verus! {

/// A triangle of mesh vertices.
#[derive(Clone, Copy, Debug, PartialEq, Eq, Structural)]
pub struct MeshTriangle {
    pub a: Vertex,
    pub b: Vertex,
    pub c: Vertex,
}

/// All three vertices are well formed.
pub open spec fn mesh_tri_wf(t: MeshTriangle) -> bool {
    vert_wf(t.a) && vert_wf(t.b) && vert_wf(t.c)
}

/// Every vertex of the triangle carries its own normalized position as its
/// normal: the analytic normal of a sphere centered at the origin.
pub open spec fn tri_normals_radial(t: MeshTriangle) -> bool {
    t.a.normal == vnorm_s(t.a.position) && t.b.normal == vnorm_s(t.b.position)
        && t.c.normal == vnorm_s(t.c.position)
}

/// A point on the sphere at the given latitude and longitude angles.
pub open spec fn sphere_point_s(theta: int, phi: int, radius: int) -> Vec3 {
    Vec3 {
        x: fx_mul_s(fx_mul_s(radius, fx_sin_s(theta)), fx_cos_s(phi)) as i64,
        y: fx_mul_s(radius, fx_cos_s(theta)) as i64,
        z: fx_mul_s(fx_mul_s(radius, fx_sin_s(theta)), fx_sin_s(phi)) as i64,
    }
}

/// A point on the sphere at the given latitude and longitude angles.
fn sphere_point(theta: i64, phi: i64, radius: i64) -> (p: Vec3)
    requires
        fx_wf(theta),
        fx_wf(phi),
        fx_wf(radius),
    ensures
        p == sphere_point_s(theta as int, phi as int, radius as int),
        v_wf(p),
{
    let st: i64 = fx_sin(theta);
    Vec3 {
        x: fx_mul(fx_mul(radius, st), fx_cos(phi)),
        y: fx_mul(radius, fx_cos(theta)),
        z: fx_mul(fx_mul(radius, st), fx_sin(phi)),
    }
}

/// The subtle brightness variation a sphere vertex gets from its latitude.
pub open spec fn color_var_s(color: Color3, n: Vec3) -> Color3 {
    let factor = fx_add_s(52429, fx_mul_s(13107, fx_mul_s(fx_add_s(n.y as int, FX_ONE as int), FX_HALF as int)));
    Color3 {
        r: (if fx_mul_s(color.r as int, factor) <= FX_ONE { fx_mul_s(color.r as int, factor) } else { FX_ONE as int }) as i64,
        g: (if fx_mul_s(color.g as int, factor) <= FX_ONE { fx_mul_s(color.g as int, factor) } else { FX_ONE as int }) as i64,
        b: (if fx_mul_s(color.b as int, factor) <= FX_ONE { fx_mul_s(color.b as int, factor) } else { FX_ONE as int }) as i64,
    }
}

/// The subtle brightness variation a sphere vertex gets from its latitude.
fn color_var(color: Color3, n: Vec3) -> (c: Color3)
    requires
        color_wf(color),
        v_wf(n),
    ensures
        c == color_var_s(color, n),
        color_wf(c),
{
    let factor: i64 = fx_add(52429, fx_mul(13107, fx_mul(fx_add(n.y, FX_ONE), FX_HALF)));
    Color3 {
        r: fx_min(fx_mul(color.r, factor), FX_ONE),
        g: fx_min(fx_mul(color.g, factor), FX_ONE),
        b: fx_min(fx_mul(color.b, factor), FX_ONE),
    }
}

/// The latitude angle of ring r out of `rings`: pi * r / rings.
pub open spec fn ring_angle_s(r: int, rings: int) -> int {
    fx_div_s(fx_mul_s(FX_PI as int, r * FX_SCALE), rings * FX_SCALE)
}

/// The longitude angle of segment s out of `segments`: tau * s / segments.
pub open spec fn seg_angle_s(s: int, segments: int) -> int {
    fx_div_s(fx_mul_s(FX_TAU as int, s * FX_SCALE), segments * FX_SCALE)
}

/// The position is a sphere surface point: the sphere point of some
/// latitude/longitude lattice cell at the given radius.
#[verifier::opaque]
pub open spec fn pos_on_lattice_s(p: Vec3, radius: int, rings: int, segments: int) -> bool {
    exists|r: int, sg: int|
        #![trigger ring_angle_s(r, rings), seg_angle_s(sg, segments)]
        0 <= r <= rings && 0 <= sg <= segments
            && p == sphere_point_s(ring_angle_s(r, rings), seg_angle_s(sg, segments), radius)
}

/// Every vertex of the triangle sits on the sphere lattice, carries the
/// radial normal, and wears the latitude-varied base color.
pub open spec fn tri_on_sphere_s(t: MeshTriangle, radius: int, color: Color3, rings: int, segments: int) -> bool {
    pos_on_lattice_s(t.a.position, radius, rings, segments)
        && pos_on_lattice_s(t.b.position, radius, rings, segments)
        && pos_on_lattice_s(t.c.position, radius, rings, segments)
        && t.a.color == color_var_s(color, vnorm_s(t.a.position))
        && t.b.color == color_var_s(color, vnorm_s(t.b.position))
        && t.c.color == color_var_s(color, vnorm_s(t.c.position))
}

/// The sphere vertex of lattice cell (r, s).
fn lattice_vertex(radius: i64, color: Color3, r: usize, s: usize, rings: usize, segments: usize)
    -> (v: Vertex)
    requires
        fx_wf(radius),
        color_wf(color),
        1 <= rings <= 512,
        1 <= segments <= 512,
        r <= rings,
        s <= segments,
    ensures
        pos_on_lattice_s(v.position, radius as int, rings as int, segments as int),
        v.normal == vnorm_s(v.position),
        v.color == color_var_s(color, vnorm_s(v.position)),
        vert_wf(v),
{
    let theta: i64 = fx_div(fx_mul(FX_PI, (r as i64) * FX_SCALE), (rings as i64) * FX_SCALE);
    let phi: i64 = fx_div(fx_mul(FX_TAU, (s as i64) * FX_SCALE), (segments as i64) * FX_SCALE);
    let p: Vec3 = sphere_point(theta, phi, radius);
    let n: Vec3 = p.normalize();
    proof {
        reveal(pos_on_lattice_s);
        assert(theta == ring_angle_s(r as int, rings as int)
            && phi == seg_angle_s(s as int, segments as int));
    }
    Vertex::new(p, n, color_var(color, n))
}

/// How many triangles one latitude ring contributes per longitude segment:
/// the polar rings contribute one, every other ring two.
pub open spec fn ring_tris_s(r: int, rings: int) -> int {
    (if r != 0 { 1int } else { 0int }) + (if r != rings - 1 { 1int } else { 0int })
}

/// Triangles per segment contributed by the first r latitude rings.
pub open spec fn rings_sum_s(r: int, rings: int) -> int
    decreases r,
{
    if r <= 0 {
        0
    } else {
        rings_sum_s(r - 1, rings) + ring_tris_s(r - 1, rings)
    }
}

/// Every full sweep of latitude rings contributes 2 * (rings - 1)
/// triangles per segment: the poles lose one each.
proof fn lemma_rings_sum(r: int, rings: int)
    requires
        1 <= r <= rings,
    ensures
        r < rings ==> rings_sum_s(r, rings) == 2 * r - 1,
        r == rings ==> rings_sum_s(r, rings) == 2 * (rings - 1),
    decreases r,
{
    reveal_with_fuel(rings_sum_s, 3);
    if r == 1 {
    } else {
        lemma_rings_sum(r - 1, rings);
    }
}

/// Generate a UV sphere as a triangle list. The count is exactly
/// 2 * segments * (rings - 1): each pole ring yields one triangle per
/// segment instead of two, so no zero-area pole quads are emitted. Every
/// vertex position is pinned to a sphere point of the latitude/longitude
/// lattice, every vertex normal is its normalized position (the analytic
/// sphere normal), and every vertex color derives from the base color by
/// the latitude variation.
#[verifier::loop_isolation(false)]
pub fn generate_sphere(radius: i64, segments: usize, rings: usize, color: Color3)
    -> (mesh: Vec<MeshTriangle>)
    requires
        fx_wf(radius),
        color_wf(color),
        1 <= rings <= 512,
        segments <= 512,
    ensures
        mesh@.len() == 2 * segments * (rings - 1),
        forall|j: int| 0 <= j < mesh@.len() ==> mesh_tri_wf(#[trigger] mesh@[j]),
        forall|j: int| 0 <= j < mesh@.len() ==> tri_normals_radial(#[trigger] mesh@[j]),
        forall|j: int| 0 <= j < mesh@.len()
            ==> tri_on_sphere_s(#[trigger] mesh@[j], radius as int, color, rings as int, segments as int),
{
    let mut mesh: Vec<MeshTriangle> = Vec::new();
    let mut ring: usize = 0;
    while ring < rings
        invariant
            0 <= ring <= rings,
            mesh@.len() == segments * rings_sum_s(ring as int, rings as int),
            mesh@.len() <= 1024 * (ring as int),
            forall|j: int| 0 <= j < mesh@.len() ==> mesh_tri_wf(#[trigger] mesh@[j]),
            forall|j: int| 0 <= j < mesh@.len() ==> tri_normals_radial(#[trigger] mesh@[j]),
            forall|j: int| 0 <= j < mesh@.len()
                ==> tri_on_sphere_s(#[trigger] mesh@[j], radius as int, color, rings as int, segments as int),
        decreases rings - ring,
    {
        let mut seg: usize = 0;
        while seg < segments
            invariant
                0 <= seg <= segments,
                mesh@.len() == segments * rings_sum_s(ring as int, rings as int)
                    + seg * ring_tris_s(ring as int, rings as int),
                mesh@.len() <= 1024 * (ring as int) + 2 * (seg as int),
                forall|j: int| 0 <= j < mesh@.len() ==> mesh_tri_wf(#[trigger] mesh@[j]),
                forall|j: int| 0 <= j < mesh@.len() ==> tri_normals_radial(#[trigger] mesh@[j]),
                forall|j: int| 0 <= j < mesh@.len()
                    ==> tri_on_sphere_s(#[trigger] mesh@[j], radius as int, color, rings as int, segments as int),
            decreases segments - seg,
        {
            let v1: Vertex = lattice_vertex(radius, color, ring, seg, rings, segments);
            let v2: Vertex = lattice_vertex(radius, color, ring, seg + 1, rings, segments);
            let v3: Vertex = lattice_vertex(radius, color, ring + 1, seg, rings, segments);
            let v4: Vertex = lattice_vertex(radius, color, ring + 1, seg + 1, rings, segments);
            if ring != 0 {
                mesh.push(MeshTriangle { a: v1, b: v2, c: v3 });
            }
            if ring != rings - 1 {
                mesh.push(MeshTriangle { a: v2, b: v4, c: v3 });
            }
            proof {
                assert(((seg + 1) as int) * ring_tris_s(ring as int, rings as int)
                    == (seg as int) * ring_tris_s(ring as int, rings as int)
                        + ring_tris_s(ring as int, rings as int)) by (nonlinear_arith);
            }
            seg = seg + 1;
        }
        proof {
            assert(segments * rings_sum_s(ring as int, rings as int)
                + segments * ring_tris_s(ring as int, rings as int)
                == segments * (rings_sum_s(ring as int, rings as int) + ring_tris_s(ring as int, rings as int)))
                by (nonlinear_arith);
        }
        ring = ring + 1;
    }
    proof {
        lemma_rings_sum(rings as int, rings as int);
        assert(segments * (2 * ((rings as int) - 1)) == 2 * segments * ((rings as int) - 1))
            by (nonlinear_arith);
    }
    mesh
}

/// The i-th of `segments` evenly spaced points on a circular orbit of the
/// given radius in the ecliptic plane.
pub open spec fn orbit_point_s(radius: int, i: int, segments: int) -> Vec3 {
    let angle = fx_div_s(fx_mul_s(FX_TAU as int, i * FX_SCALE), segments * FX_SCALE);
    Vec3 {
        x: fx_mul_s(radius, fx_cos_s(angle)) as i64,
        y: 0,
        z: fx_mul_s(radius, fx_sin_s(angle)) as i64,
    }
}

/// Evenly spaced points of a circular orbit path in the ecliptic plane.
pub fn generate_orbit_points(radius: i64, segments: usize) -> (points: Vec<Vec3>)
    requires
        fx_wf(radius),
        1 <= segments <= 4096,
    ensures
        points@.len() == segments,
        forall|i: int| 0 <= i < segments
            ==> points@[i] == orbit_point_s(radius as int, i, segments as int),
        forall|i: int| 0 <= i < segments ==> v_wf(#[trigger] points@[i]),
{
    let mut points: Vec<Vec3> = Vec::new();
    let mut i: usize = 0;
    while i < segments
        invariant
            0 <= i <= segments,
            segments <= 4096,
            fx_wf(radius),
            points@.len() == i,
            forall|j: int| 0 <= j < i
                ==> points@[j] == orbit_point_s(radius as int, j, segments as int),
            forall|j: int| 0 <= j < i ==> v_wf(#[trigger] points@[j]),
        decreases segments - i,
    {
        let angle: i64 = fx_div(fx_mul(FX_TAU, (i as i64) * FX_SCALE), (segments as i64) * FX_SCALE);
        points.push(Vec3 { x: fx_mul(radius, fx_cos(angle)), y: 0, z: fx_mul(radius, fx_sin(angle)) });
        i = i + 1;
    }
    points
}

} // verus!
