//! A cylinder of radius 1 and height 2, centred on the origin, with its axis
//! along z. It is cut into `sub_u` columns around the axis and `sub_h` bands
//! along it, and closed by a flat cap at each end.
//!
//! Shared vertices: the south pole (index 0), then `sub_h + 3` rings of
//! `sub_u` vertices each, then the north pole. Ring 0 is the rim of the bottom
//! cap, rings `1 ..= sub_h + 1` go up the side wall, and ring `sub_h + 2` is
//! the rim of the top cap. A cap rim has the same positions as the side ring
//! next to it, but its own normals and texture coordinates.
//!
//! Polygons: `sub_u` triangles for the bottom cap, then `sub_h` bands of
//! `sub_u` quads for the side, then `sub_u` triangles for the top cap.
use vstd::prelude::*;

use crate::polygon::{Polygon, Quad, Triangle};
use vstd::arithmetic::div_mod::{
    lemma_div_pos_is_pos, lemma_fundamental_div_mod, lemma_fundamental_div_mod_converse,
    lemma_mod_bound, lemma_multiply_divide_lt,
};
use vstd::arithmetic::mul::{lemma_mul_inequality, lemma_mul_is_commutative};

verus! {

/// Which way a vertex's normal points. `Outward` is the radial direction
/// `(cos a, sin a, 0)` at the vertex's angle `a`.
#[derive(Clone, Copy, Debug, PartialEq, Eq, Structural)]
pub enum Facing {
    Down,
    Up,
    Outward,
}

/// Where on the texture atlas a vertex samples. The caps are mapped onto two
/// discs: a pole takes the centre of its disc, a rim vertex the point of the
/// disc's circle at the vertex's angle. The side wall is mapped onto a strip.
#[derive(Clone, Copy, Debug, PartialEq, Eq, Structural)]
pub enum TexPlace {
    BottomCenter,
    TopCenter,
    BottomCircle,
    TopCircle,
    SideStrip,
}

/// One vertex of the cylinder. Its angle around the axis is
/// `a = 2 pi column / sub_u`, and its height `z = 2 level / sub_h - 1`. Its
/// position is `(0, 0, z)` where it lies on the axis, else `(cos a, sin a, z)`.
#[derive(Clone, Copy, Debug, PartialEq, Eq, Structural)]
pub struct CylinderVertex {
    pub column: usize,
    pub level: usize,
    pub on_axis: bool,
    pub facing: Facing,
    pub tex: TexPlace,
}

/// The dimensions that a cylinder can have: at least two columns, at least
/// one band, and few enough vertices to count in a `usize`.
pub open spec fn valid_dims(su: int, sh: int) -> bool {
    su > 1 && sh > 0 && vertex_count(su, sh) <= usize::MAX
}

pub open spec fn vertex_count(su: int, sh: int) -> int {
    (3 + sh) * su + 2
}

pub open spec fn polygon_count(su: int, sh: int) -> int {
    (2 + sh) * su
}

pub open spec fn south_pole() -> CylinderVertex {
    CylinderVertex { column: 0, level: 0, on_axis: true, facing: Facing::Down, tex: TexPlace::BottomCenter }
}

pub open spec fn north_pole(sh: int) -> CylinderVertex {
    CylinderVertex { column: 0, level: sh as usize, on_axis: true, facing: Facing::Up, tex: TexPlace::TopCenter }
}

/// The vertex in column `u` of ring `r`.
pub open spec fn ring_vertex(sh: int, u: int, r: int) -> CylinderVertex {
    if r == 0 {
        CylinderVertex { column: u as usize, level: 0, on_axis: false, facing: Facing::Down, tex: TexPlace::BottomCircle }
    } else if r == sh + 2 {
        CylinderVertex { column: u as usize, level: sh as usize, on_axis: false, facing: Facing::Up, tex: TexPlace::TopCircle }
    } else {
        CylinderVertex { column: u as usize, level: (r - 1) as usize, on_axis: false, facing: Facing::Outward, tex: TexPlace::SideStrip }
    }
}

/// The shared index of the vertex in column `u` of ring `r`.
pub open spec fn ring_index(su: int, r: int, u: int) -> int {
    1 + r * su + u
}

/// Shared vertex `i`.
pub open spec fn cyl_vertex(su: int, sh: int, i: int) -> CylinderVertex {
    if i == 0 {
        south_pole()
    } else if i == vertex_count(su, sh) - 1 {
        north_pole(sh)
    } else {
        ring_vertex(sh, (i - 1) % su, (i - 1) / su)
    }
}

/// Indexed polygon `i`, which lies in column `i % su` of band `i / su`.
/// Band 0 is the bottom cap, band `sub_h + 1` the top cap.
pub open spec fn cyl_polygon(su: int, sh: int, i: int) -> Polygon<usize> {
    let u = i % su;
    let u1 = (u + 1) % su;
    let r = i / su;
    if r == 0 {
        Polygon::PolyTri(Triangle {
            x: ring_index(su, 0, u) as usize,
            y: 0,
            z: ring_index(su, 0, u1) as usize,
        })
    } else if r == sh + 1 {
        Polygon::PolyTri(Triangle {
            x: ring_index(su, sh + 2, u) as usize,
            y: ring_index(su, sh + 2, u1) as usize,
            z: (vertex_count(su, sh) - 1) as usize,
        })
    } else {
        Polygon::PolyQuad(Quad {
            x: ring_index(su, r, u) as usize,
            y: ring_index(su, r, u1) as usize,
            z: ring_index(su, r + 1, u1) as usize,
            w: ring_index(su, r + 1, u) as usize,
        })
    }
}

/// A polygon of indices with each index replaced by its shared vertex.
pub open spec fn resolve(su: int, sh: int, p: Polygon<usize>) -> Polygon<CylinderVertex> {
    match p {
        Polygon::PolyTri(t) => Polygon::PolyTri(Triangle {
            x: cyl_vertex(su, sh, t.x as int),
            y: cyl_vertex(su, sh, t.y as int),
            z: cyl_vertex(su, sh, t.z as int),
        }),
        Polygon::PolyQuad(q) => Polygon::PolyQuad(Quad {
            x: cyl_vertex(su, sh, q.x as int),
            y: cyl_vertex(su, sh, q.y as int),
            z: cyl_vertex(su, sh, q.z as int),
            w: cyl_vertex(su, sh, q.w as int),
        }),
    }
}

/// Every index of `p` is below `n`.
pub open spec fn indices_below(p: Polygon<usize>, n: int) -> bool {
    match p {
        Polygon::PolyTri(t) => t.x < n && t.y < n && t.z < n,
        Polygon::PolyQuad(q) => q.x < n && q.y < n && q.z < n && q.w < n,
    }
}

proof fn lemma_split(k: int, su: int, m: int)
    requires
        su > 0,
        0 <= k < m * su,
    ensures
        k == (k / su) * su + k % su,
        0 <= k % su < su,
        0 <= k / su < m,
{
    lemma_fundamental_div_mod(k, su);
    lemma_mul_is_commutative(su, k / su);
    lemma_mod_bound(k, su);
    lemma_div_pos_is_pos(k, su);
    lemma_mul_is_commutative(m, su);
    lemma_multiply_divide_lt(k, su, m);
}

proof fn lemma_dims(su: int, sh: int)
    requires
        valid_dims(su, sh),
    ensures
        sh + 3 < vertex_count(su, sh),
        polygon_count(su, sh) + su + 2 == vertex_count(su, sh),
        su <= polygon_count(su, sh),
{
    lemma_mul_inequality(1, su, 3 + sh);
    lemma_mul_inequality(1, 2 + sh, su);
    assert((2 + sh) * su + su == (3 + sh) * su) by (nonlinear_arith);
}

proof fn lemma_ring_index_parts(su: int, r: int, u: int)
    requires
        su > 0,
        r >= 0,
        0 <= u < su,
    ensures
        (r * su + u) / su == r,
        (r * su + u) % su == u,
{
    lemma_fundamental_div_mod_converse(r * su + u, su, r, u);
}

/// The vertex at column `u` of ring `r` stands at `ring_index(su, r, u)`,
/// strictly between the two poles.
pub proof fn lemma_ring_index(su: int, sh: int, r: int, u: int)
    requires
        valid_dims(su, sh),
        0 <= r <= sh + 2,
        0 <= u < su,
    ensures
        0 < ring_index(su, r, u) < vertex_count(su, sh) - 1,
        cyl_vertex(su, sh, ring_index(su, r, u)) == ring_vertex(sh, u, r),
{
    lemma_ring_index_parts(su, r, u);
    lemma_mul_inequality(r, sh + 2, su);
    assert(0 <= r * su) by (nonlinear_arith)
        requires
            r >= 0,
            su > 0,
    ;
    assert((sh + 2) * su + su == (3 + sh) * su) by (nonlinear_arith);
}

/// The vertices that polygon `i` joins: in the bottom cap, two neighbouring
/// rim vertices and the south pole; in the side wall, the cell between two
/// neighbouring columns of two neighbouring rings; in the top cap, two
/// neighbouring rim vertices and the north pole. The column after the last is
/// column 0, so the surface closes at the seam. Every index is a valid
/// shared-vertex index.
pub proof fn lemma_polygon_vertices(su: int, sh: int, i: int)
    requires
        valid_dims(su, sh),
        0 <= i < polygon_count(su, sh),
    ensures
        indices_below(cyl_polygon(su, sh, i), vertex_count(su, sh)),
        ({
            let u = i % su;
            let u1 = if u == su - 1 { 0 } else { u + 1 };
            let r = i / su;
            &&& 0 <= u < su
            &&& (u + 1) % su == u1
            &&& 0 <= r < sh + 2
            &&& r == 0 ==> resolve(su, sh, cyl_polygon(su, sh, i)) == Polygon::PolyTri(
                Triangle { x: ring_vertex(sh, u, 0), y: south_pole(), z: ring_vertex(sh, u1, 0) },
            )
            &&& 0 < r <= sh ==> resolve(su, sh, cyl_polygon(su, sh, i)) == Polygon::PolyQuad(
                Quad {
                    x: ring_vertex(sh, u, r),
                    y: ring_vertex(sh, u1, r),
                    z: ring_vertex(sh, u1, r + 1),
                    w: ring_vertex(sh, u, r + 1),
                },
            )
            &&& r == sh + 1 ==> resolve(su, sh, cyl_polygon(su, sh, i)) == Polygon::PolyTri(
                Triangle {
                    x: ring_vertex(sh, u, sh + 2),
                    y: ring_vertex(sh, u1, sh + 2),
                    z: north_pole(sh),
                },
            )
        }),
{
    let u = i % su;
    let r = i / su;
    lemma_split(i, su, sh + 2);
    let u1 = if u == su - 1 { 0 } else { u + 1 };
    assert((u + 1) % su == u1) by {
        if u == su - 1 {
            lemma_ring_index_parts(su, 1, 0);
        } else {
            lemma_ring_index_parts(su, 0, u + 1);
        }
    }
    if r == 0 {
        lemma_ring_index(su, sh, 0, u);
        lemma_ring_index(su, sh, 0, u1);
    } else if r == sh + 1 {
        lemma_ring_index(su, sh, sh + 2, u);
        lemma_ring_index(su, sh, sh + 2, u1);
    } else {
        lemma_ring_index(su, sh, r, u);
        lemma_ring_index(su, sh, r, u1);
        lemma_ring_index(su, sh, r + 1, u);
        lemma_ring_index(su, sh, r + 1, u1);
    }
}

/// The south pole is at `(0, 0, -1)` and faces down; the north pole is at
/// `(0, 0, 1)` and faces up, whatever the dimensions. A vertex's height is
/// `(2 level - sub_h) / sub_h`.
pub proof fn lemma_poles(su: int, sh: int)
    requires
        valid_dims(su, sh),
    ensures
        cyl_vertex(su, sh, 0) == south_pole(),
        south_pole().on_axis,
        2 * south_pole().level - sh == -sh,
        south_pole().facing == Facing::Down,
        cyl_vertex(su, sh, vertex_count(su, sh) - 1) == north_pole(sh),
        north_pole(sh).on_axis,
        2 * north_pole(sh).level - sh == sh,
        north_pole(sh).facing == Facing::Up,
{
    lemma_dims(su, sh);
}

/// Every vertex but the two poles lies on the unit circle around the axis,
/// in one of the `sub_u` columns, at a height from -1 to 1. On the side wall
/// its normal is the radial direction through it.
pub proof fn lemma_rings_off_axis(su: int, sh: int, i: int)
    requires
        valid_dims(su, sh),
        0 < i < vertex_count(su, sh) - 1,
    ensures
        !cyl_vertex(su, sh, i).on_axis,
        cyl_vertex(su, sh, i).column < su,
        cyl_vertex(su, sh, i).level <= sh,
        cyl_vertex(su, sh, i).tex == TexPlace::SideStrip ==> cyl_vertex(su, sh, i).facing
            == Facing::Outward,
{
    lemma_dims(su, sh);
    lemma_split(i - 1, su, 3 + sh);
}

/// The polygon in the next column of the same band, where the column after
/// the last is column 0.
pub open spec fn next_in_band(su: int, i: int) -> int {
    (i / su) * su + (i % su + 1) % su
}

/// Neighbouring polygons of a band share an edge: the right edge of polygon
/// `i` is the left edge of the polygon in the next column. For the last
/// column that is the first polygon of the same band, so each band closes
/// around the seam with no gap and no overlap.
pub proof fn lemma_bands_close(su: int, sh: int, i: int)
    requires
        valid_dims(su, sh),
        0 <= i < polygon_count(su, sh),
    ensures
        0 <= next_in_band(su, i) < polygon_count(su, sh),
        next_in_band(su, i) / su == i / su,
        i % su == su - 1 ==> next_in_band(su, i) == i - (su - 1),
        match (cyl_polygon(su, sh, i), cyl_polygon(su, sh, next_in_band(su, i))) {
            (Polygon::PolyTri(a), Polygon::PolyTri(b)) => if i / su == 0 {
                a.z == b.x && a.y == b.y
            } else {
                a.y == b.x && a.z == b.z
            },
            (Polygon::PolyQuad(a), Polygon::PolyQuad(b)) => a.y == b.x && a.z == b.w,
            _ => false,
        },
{
    let u = i % su;
    let r = i / su;
    lemma_split(i, su, sh + 2);
    lemma_polygon_vertices(su, sh, i);
    let u1 = (u + 1) % su;
    let j = next_in_band(su, i);
    lemma_ring_index_parts(su, r, u1);
    assert(j == r * su + u1);
    assert(0 <= r * su) by (nonlinear_arith)
        requires
            r >= 0,
            su > 0,
    ;
    assert(r * su + su == (r + 1) * su) by (nonlinear_arith);
    lemma_mul_inequality(r + 1, sh + 2, su);
    lemma_polygon_vertices(su, sh, j);
    assert(j % su == u1 && j / su == r);
}

/// The number of triangles among polygons `0 .. n`.
pub open spec fn triangles_before(su: int, sh: int, n: nat) -> nat
    decreases n,
{
    if n == 0 {
        0
    } else {
        triangles_before(su, sh, (n - 1) as nat) + if cyl_polygon(su, sh, n - 1) is PolyTri {
            1nat
        } else {
            0nat
        }
    }
}

/// The number of quads among polygons `0 .. n`.
pub open spec fn quads_before(su: int, sh: int, n: nat) -> nat
    decreases n,
{
    if n == 0 {
        0
    } else {
        quads_before(su, sh, (n - 1) as nat) + if cyl_polygon(su, sh, n - 1) is PolyQuad {
            1nat
        } else {
            0nat
        }
    }
}

/// Polygon `i` is a triangle exactly in the two caps: the first and the last
/// `sub_u` polygons.
pub proof fn lemma_polygon_kind(su: int, sh: int, i: int)
    requires
        valid_dims(su, sh),
        0 <= i < polygon_count(su, sh),
    ensures
        cyl_polygon(su, sh, i) is PolyTri <==> (i < su || i >= (sh + 1) * su),
{
    let r = i / su;
    lemma_split(i, su, sh + 2);
    if r == 0 {
        assert(su <= (sh + 1) * su) by (nonlinear_arith)
            requires
                sh > 0,
                su > 0,
        ;
        assert(r * su == 0) by (nonlinear_arith)
            requires
                r == 0,
        ;
        assert(i < su);
        assert(cyl_polygon(su, sh, i) is PolyTri);
    } else if r == sh + 1 {
        assert(su <= r * su) by (nonlinear_arith)
            requires
                r >= 1,
                su > 0,
        ;
        assert(r * su == (sh + 1) * su);
        assert(i >= (sh + 1) * su);
        assert(cyl_polygon(su, sh, i) is PolyTri);
    } else {
        assert(su <= r * su) by (nonlinear_arith)
            requires
                r >= 1,
                su > 0,
        ;
        assert(r * su + su <= (sh + 1) * su) by (nonlinear_arith)
            requires
                r <= sh,
                su > 0,
        ;
        assert(su <= i < (sh + 1) * su);
        assert(cyl_polygon(su, sh, i) is PolyQuad);
    }
}

proof fn lemma_kinds_before(su: int, sh: int, n: nat)
    requires
        valid_dims(su, sh),
        n <= polygon_count(su, sh),
    ensures
        triangles_before(su, sh, n) == if n <= su {
            n as int
        } else if n <= (sh + 1) * su {
            su
        } else {
            su + n - (sh + 1) * su
        },
        triangles_before(su, sh, n) + quads_before(su, sh, n) == n,
    decreases n,
{
    if n > 0 {
        lemma_kinds_before(su, sh, (n - 1) as nat);
        lemma_polygon_kind(su, sh, n - 1);
        assert(su <= (sh + 1) * su) by (nonlinear_arith)
            requires
                sh > 0,
                su > 0,
        ;
    }
}

/// The caps hold `2 sub_u` triangles and the side wall `sub_h sub_u` quads,
/// which together are all `(2 + sub_h) sub_u` polygons.
pub proof fn lemma_polygon_tally(su: int, sh: int)
    requires
        valid_dims(su, sh),
    ensures
        triangles_before(su, sh, polygon_count(su, sh) as nat) == 2 * su,
        quads_before(su, sh, polygon_count(su, sh) as nat) == sh * su,
        2 * su + sh * su == polygon_count(su, sh),
{
    lemma_dims(su, sh);
    lemma_kinds_before(su, sh, polygon_count(su, sh) as nat);
    assert((2 + sh) * su - (sh + 1) * su == su) by (nonlinear_arith);
    assert(2 * su + sh * su == (2 + sh) * su) by (nonlinear_arith);
}

/// The cylinder generator. As a sequence it hands out its polygons in index
/// order, once.
#[derive(Clone, Copy)]
pub struct Cylinder {
    idx: usize,
    sub_u: usize,
    sub_h: usize,
}

impl Cylinder {
    /// How many polygons have been handed out so far.
    pub closed spec fn cursor(&self) -> nat {
        self.idx as nat
    }

    /// The number of columns around the axis.
    pub closed spec fn u_segments(&self) -> nat {
        self.sub_u as nat
    }

    /// The number of bands along the axis.
    pub closed spec fn h_segments(&self) -> nat {
        self.sub_h as nat
    }

    pub open spec fn wf(&self) -> bool {
        &&& valid_dims(self.u_segments() as int, self.h_segments() as int)
        &&& self.cursor() <= polygon_count(self.u_segments() as int, self.h_segments() as int)
    }

    /// A cylinder of `u` columns and one band.
    pub fn new(u: usize) -> (r: Self)
        requires
            u > 1,
            vertex_count(u as int, 1) <= usize::MAX,
        ensures
            r.wf(),
            r.u_segments() == u,
            r.h_segments() == 1,
            r.cursor() == 0,
    {
        Cylinder { idx: 0, sub_u: u, sub_h: 1 }
    }

    /// A cylinder of `u` columns and `h` bands.
    pub fn subdivide(u: usize, h: usize) -> (r: Self)
        requires
            u > 1,
            h > 0,
            vertex_count(u as int, h as int) <= usize::MAX,
        ensures
            r.wf(),
            r.u_segments() == u,
            r.h_segments() == h,
            r.cursor() == 0,
    {
        Cylinder { idx: 0, sub_u: u, sub_h: h }
    }

    /// The number of columns around the axis.
    pub fn sub_u(&self) -> (n: usize)
        ensures
            n == self.u_segments(),
    {
        self.sub_u
    }

    /// The number of bands along the axis.
    pub fn sub_h(&self) -> (n: usize)
        ensures
            n == self.h_segments(),
    {
        self.sub_h
    }

    fn vert(&self, u: usize, r: usize) -> (v: CylinderVertex)
        requires
            self.wf(),
            u < self.sub_u,
            r <= self.sub_h + 2,
        ensures
            v == ring_vertex(self.sub_h as int, u as int, r as int),
    {
        proof {
            lemma_dims(self.sub_u as int, self.sub_h as int);
        }
        if r == 0 {
            CylinderVertex { column: u, level: 0, on_axis: false, facing: Facing::Down, tex: TexPlace::BottomCircle }
        } else if r > self.sub_h + 1 {
            CylinderVertex { column: u, level: self.sub_h, on_axis: false, facing: Facing::Up, tex: TexPlace::TopCircle }
        } else {
            CylinderVertex { column: u, level: r - 1, on_axis: false, facing: Facing::Outward, tex: TexPlace::SideStrip }
        }
    }

    /// Shared vertex `idx`.
    pub fn shared_vertex(&self, idx: usize) -> (v: CylinderVertex)
        requires
            self.wf(),
            idx < vertex_count(self.u_segments() as int, self.h_segments() as int),
        ensures
            v == cyl_vertex(self.u_segments() as int, self.h_segments() as int, idx as int),
    {
        if idx == 0 {
            CylinderVertex { column: 0, level: 0, on_axis: true, facing: Facing::Down, tex: TexPlace::BottomCenter }
        } else if idx == self.shared_vertex_count() - 1 {
            CylinderVertex { column: 0, level: self.sub_h, on_axis: true, facing: Facing::Up, tex: TexPlace::TopCenter }
        } else {
            let k = idx - 1;
            proof {
                lemma_split(k as int, self.sub_u as int, 3 + self.sub_h);
            }
            self.vert(k % self.sub_u, k / self.sub_u)
        }
    }

    /// The number of shared vertices, `(3 + sub_h) * sub_u + 2`.
    pub fn shared_vertex_count(&self) -> (n: usize)
        requires
            self.wf(),
        ensures
            n == vertex_count(self.u_segments() as int, self.h_segments() as int),
    {
        proof {
            lemma_mul_inequality(1, self.sub_u as int, 3 + self.sub_h);
        }
        (3 + self.sub_h) * self.sub_u + 2
    }

    /// Indexed polygon `idx`.
    pub fn indexed_polygon(&self, idx: usize) -> (p: Polygon<usize>)
        requires
            self.wf(),
            idx < polygon_count(self.u_segments() as int, self.h_segments() as int),
        ensures
            p == cyl_polygon(self.u_segments() as int, self.h_segments() as int, idx as int),
    {
        let su = self.sub_u;
        proof {
            lemma_dims(su as int, self.sub_h as int);
            lemma_polygon_vertices(su as int, self.sub_h as int, idx as int);
            lemma_split(idx as int, su as int, 2 + self.sub_h);
        }
        let u = idx % su;
        let u1 = (u + 1) % su;
        let r = idx / su;
        let base = 1 + idx - u;
        proof {
            let (ri, sui) = (r as int, su as int);
            assert((ri + 1) * sui == ri * sui + sui) by (nonlinear_arith);
            assert((ri + 2) * sui == ri * sui + 2 * sui) by (nonlinear_arith);
        }
        if r == 0 {
            Polygon::PolyTri(Triangle::new(base + u, 0, base + u1))
        } else if r == self.sub_h + 1 {
            let base = base + su;
            let end = self.shared_vertex_count() - 1;
            Polygon::PolyTri(Triangle::new(base + u, base + u1, end))
        } else {
            Polygon::PolyQuad(Quad::new(base + u, base + u1, base + u1 + su, base + u + su))
        }
    }

    /// The number of indexed polygons, `(2 + sub_h) * sub_u`.
    pub fn indexed_polygon_count(&self) -> (n: usize)
        requires
            self.wf(),
        ensures
            n == polygon_count(self.u_segments() as int, self.h_segments() as int),
    {
        proof {
            lemma_dims(self.sub_u as int, self.sub_h as int);
        }
        (2 + self.sub_h) * self.sub_u
    }

    /// The polygons still to come, as exact lower and upper bounds.
    pub fn size_hint(&self) -> (r: (usize, Option<usize>))
        requires
            self.wf(),
        ensures
            r.0 == polygon_count(self.u_segments() as int, self.h_segments() as int) - self.cursor(),
            r.1 == Some(r.0),
    {
        let n = self.indexed_polygon_count() - self.idx;
        (n, Some(n))
    }

    fn resolve_polygon(&self, p: Polygon<usize>) -> (r: Polygon<CylinderVertex>)
        requires
            self.wf(),
            indices_below(p, vertex_count(self.u_segments() as int, self.h_segments() as int)),
        ensures
            r == resolve(self.u_segments() as int, self.h_segments() as int, p),
    {
        match p {
            Polygon::PolyTri(t) => Polygon::PolyTri(
                Triangle::new(self.shared_vertex(t.x), self.shared_vertex(t.y), self.shared_vertex(t.z)),
            ),
            Polygon::PolyQuad(q) => Polygon::PolyQuad(
                Quad::new(
                    self.shared_vertex(q.x),
                    self.shared_vertex(q.y),
                    self.shared_vertex(q.z),
                    self.shared_vertex(q.w),
                ),
            ),
        }
    }

    /// The next polygon, with its vertices filled in from the shared
    /// vertices; `None` once all have been handed out.
    pub fn next(&mut self) -> (r: Option<Polygon<CylinderVertex>>)
        requires
            old(self).wf(),
        ensures
            final(self).wf(),
            final(self).u_segments() == old(self).u_segments(),
            final(self).h_segments() == old(self).h_segments(),
            ({
                let su = old(self).u_segments() as int;
                let sh = old(self).h_segments() as int;
                let i = old(self).cursor() as int;
                if i < polygon_count(su, sh) {
                    &&& r == Some(resolve(su, sh, cyl_polygon(su, sh, i)))
                    &&& final(self).cursor() == i + 1
                } else {
                    &&& r is None
                    &&& final(self).cursor() == i
                }
            }),
    {
        if self.idx < self.indexed_polygon_count() {
            let idx = self.idx;
            self.idx = idx + 1;
            proof {
                lemma_polygon_vertices(self.sub_u as int, self.sub_h as int, idx as int);
            }
            let p = self.indexed_polygon(idx);
            Some(self.resolve_polygon(p))
        } else {
            None
        }
    }
}

} // verus!
