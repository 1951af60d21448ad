//! A cube of side 2 centred on the origin. Each of its six faces has four
//! vertices of its own (24 in all): a corner of the cube is repeated on the
//! three faces that meet there, because each face needs its own normal and
//! texture coordinate.
//!
//! Faces, in order: +X, +Y, -X, -Y, +Z, -Z. Vertex `i` is corner `i % 4` of
//! face `i / 4`.
//!
//! Textures are packed as an unfolded cross on an atlas of 4 columns and
//! 3 rows: faces 0 to 3 fill columns 0 to 3 of the middle row, face 4 sits
//! above face 1 and face 5 below it.
use vstd::prelude::*;

use crate::polygon::Quad;

verus! {

/// A point or direction with integer coordinates.
#[derive(Clone, Copy, Debug, PartialEq, Eq, Structural)]
pub struct Point3 {
    pub x: i8,
    pub y: i8,
    pub z: i8,
}

/// A corner of one cell of the texture atlas, a grid of 4 columns and
/// 3 rows over the unit square. Before the margin that keeps neighbouring
/// cells apart is taken off, the texture coordinate it stands for is
/// `((col + right) / 4, (row + up) / 3)`.
#[derive(Clone, Copy, Debug, PartialEq, Eq, Structural)]
pub struct CellCorner {
    pub col: u8,
    pub row: u8,
    pub right: bool,
    pub up: bool,
}

/// One vertex of the cube: where it is, which way its face looks, and where
/// it samples the texture atlas.
#[derive(Clone, Copy, Debug, PartialEq, Eq, Structural)]
pub struct CubeVertex {
    pub pos: Point3,
    pub normal: Point3,
    pub uv: CellCorner,
}

/// The point `(x, y, z)`.
pub open spec fn pt(x: i8, y: i8, z: i8) -> Point3 {
    Point3 { x, y, z }
}

/// The position of vertex `i`, face by face.
pub open spec fn corner(i: int) -> Point3 {
    if i == 0 { pt(1, -1i8, 1) }
    else if i == 1 { pt(1, -1i8, -1i8) }
    else if i == 2 { pt(1, 1, -1i8) }
    else if i == 3 { pt(1, 1, 1) }
    else if i == 4 { pt(1, 1, 1) }
    else if i == 5 { pt(1, 1, -1i8) }
    else if i == 6 { pt(-1i8, 1, -1i8) }
    else if i == 7 { pt(-1i8, 1, 1) }
    else if i == 8 { pt(-1i8, 1, 1) }
    else if i == 9 { pt(-1i8, 1, -1i8) }
    else if i == 10 { pt(-1i8, -1i8, -1i8) }
    else if i == 11 { pt(-1i8, -1i8, 1) }
    else if i == 12 { pt(-1i8, -1i8, 1) }
    else if i == 13 { pt(-1i8, -1i8, -1i8) }
    else if i == 14 { pt(1, -1i8, -1i8) }
    else if i == 15 { pt(1, -1i8, 1) }
    else if i == 16 { pt(1, -1i8, 1) }
    else if i == 17 { pt(1, 1, 1) }
    else if i == 18 { pt(-1i8, 1, 1) }
    else if i == 19 { pt(-1i8, -1i8, 1) }
    else if i == 20 { pt(1, 1, -1i8) }
    else if i == 21 { pt(1, -1i8, -1i8) }
    else if i == 22 { pt(-1i8, -1i8, -1i8) }
    else { pt(-1i8, 1, -1i8) }
}

/// The outward normal of face `f`.
pub open spec fn face_normal(f: int) -> Point3 {
    if f == 0 { pt(1, 0, 0) }
    else if f == 1 { pt(0, 1, 0) }
    else if f == 2 { pt(-1i8, 0, 0) }
    else if f == 3 { pt(0, -1i8, 0) }
    else if f == 4 { pt(0, 0, 1) }
    else { pt(0, 0, -1i8) }
}

/// The atlas column of face `f`.
pub open spec fn cell_col(f: int) -> int {
    if f < 4 { f } else { 1 }
}

/// The atlas row of face `f`.
pub open spec fn cell_row(f: int) -> int {
    if f < 4 { 1 } else if f == 4 { 2 } else { 0 }
}

/// The atlas corner of vertex `i`: its face's cell, and within the cell the
/// corners (0,0), (1,0), (1,1), (0,1) for the four vertices in order.
pub open spec fn cell_corner(i: int) -> CellCorner {
    let k = i % 4;
    CellCorner {
        col: cell_col(i / 4) as u8,
        row: cell_row(i / 4) as u8,
        right: k == 1 || k == 2,
        up: k == 2 || k == 3,
    }
}

/// Shared vertex `i` of the cube.
pub open spec fn cube_vertex(i: int) -> CubeVertex {
    CubeVertex { pos: corner(i), normal: face_normal(i / 4), uv: cell_corner(i) }
}

/// Face `f` as a quad of indices into the shared vertices.
pub open spec fn cube_indexed(f: int) -> Quad<usize> {
    Quad { x: (4 * f) as usize, y: (4 * f + 1) as usize, z: (4 * f + 2) as usize, w: (4 * f + 3) as usize }
}

/// Face `f` as a quad of vertices.
pub open spec fn cube_face(f: int) -> Quad<CubeVertex> {
    Quad {
        x: cube_vertex(4 * f),
        y: cube_vertex(4 * f + 1),
        z: cube_vertex(4 * f + 2),
        w: cube_vertex(4 * f + 3),
    }
}

/// The cube generator. As a sequence it hands out its six faces in order,
/// once.
#[derive(Clone, Copy)]
pub struct Cube {
    next_face: usize,
}

impl Cube {
    /// How many faces have been handed out so far.
    pub closed spec fn position(&self) -> nat {
        self.next_face as nat
    }

    pub open spec fn wf(&self) -> bool {
        self.position() <= 6
    }

    /// A cube whose six faces are all still to come.
    pub fn new() -> (r: Self)
        ensures
            r.wf(),
            r.position() == 0,
    {
        Cube { next_face: 0 }
    }

    fn vert(&self, idx: usize) -> (r: Point3)
        requires
            idx < 24,
        ensures
            r == corner(idx as int),
    {
        let x: i8 = if idx <= 5 || (14 <= idx && idx <= 17) || (20 <= idx && idx <= 21) {
            1
        } else {
            -1
        };
        let y: i8 = if (2 <= idx && idx <= 9) || (17 <= idx && idx <= 18) || idx == 20 || idx == 23 {
            1
        } else {
            -1
        };
        let z: i8 = if idx == 0 || (3 <= idx && idx <= 4) || (7 <= idx && idx <= 8) || (11 <= idx
            && idx <= 12) || (15 <= idx && idx <= 19) {
            1
        } else {
            -1
        };
        Point3 { x, y, z }
    }

    fn uv(&self, idx: usize) -> (r: CellCorner)
        requires
            idx < 24,
        ensures
            r == cell_corner(idx as int),
    {
        let (col, row): (u8, u8) = if idx < 16 {
            ((idx / 4) as u8, 1)
        } else if idx < 20 {
            (1, 2)
        } else {
            (1, 0)
        };
        let k = idx % 4;
        CellCorner { col, row, right: k == 1 || k == 2, up: k == 2 || k == 3 }
    }

    fn face_indexed(&self, idx: usize) -> (r: (Point3, Quad<usize>))
        requires
            idx < 6,
        ensures
            r.0 == face_normal(idx as int),
            r.1 == cube_indexed(idx as int),
    {
        if idx == 0 {
            (Point3 { x: 1, y: 0, z: 0 }, Quad::new(0, 1, 2, 3))
        } else if idx == 1 {
            (Point3 { x: 0, y: 1, z: 0 }, Quad::new(4, 5, 6, 7))
        } else if idx == 2 {
            (Point3 { x: -1, y: 0, z: 0 }, Quad::new(8, 9, 10, 11))
        } else if idx == 3 {
            (Point3 { x: 0, y: -1, z: 0 }, Quad::new(12, 13, 14, 15))
        } else if idx == 4 {
            (Point3 { x: 0, y: 0, z: 1 }, Quad::new(16, 17, 18, 19))
        } else {
            (Point3 { x: 0, y: 0, z: -1 }, Quad::new(20, 21, 22, 23))
        }
    }

    fn vertex_of(&self, normal: Point3, i: usize) -> (r: CubeVertex)
        requires
            i < 24,
            normal == face_normal(i as int / 4),
        ensures
            r == cube_vertex(i as int),
    {
        CubeVertex { pos: self.vert(i), normal, uv: self.uv(i) }
    }

    fn face(&self, idx: usize) -> (r: Quad<CubeVertex>)
        requires
            idx < 6,
        ensures
            r == cube_face(idx as int),
    {
        let (no, quad) = self.face_indexed(idx);
        Quad::new(
            self.vertex_of(no, quad.x),
            self.vertex_of(no, quad.y),
            self.vertex_of(no, quad.z),
            self.vertex_of(no, quad.w),
        )
    }

    /// The faces still to come, as exact lower and upper bounds.
    pub fn size_hint(&self) -> (r: (usize, Option<usize>))
        requires
            self.wf(),
        ensures
            r.0 == 6 - self.position(),
            r.1 == Some((6 - self.position()) as usize),
    {
        let n = 6 - self.next_face;
        (n, Some(n))
    }

    /// The next face, with its vertices filled in; `None` once all six have
    /// been handed out.
    pub fn next(&mut self) -> (r: Option<Quad<CubeVertex>>)
        requires
            old(self).wf(),
        ensures
            final(self).wf(),
            old(self).position() < 6 ==> r == Some(cube_face(old(self).position() as int))
                && final(self).position() == old(self).position() + 1,
            old(self).position() == 6 ==> r is None && final(self).position() == 6,
    {
        if self.next_face < 6 {
            let idx = self.next_face;
            self.next_face = idx + 1;
            Some(self.face(idx))
        } else {
            None
        }
    }

    /// Shared vertex `idx`: corner `idx % 4` of face `idx / 4`.
    pub fn shared_vertex(&self, idx: usize) -> (r: CubeVertex)
        requires
            idx < 24,
        ensures
            r == cube_vertex(idx as int),
    {
        let (no, quad) = self.face_indexed(idx / 4);
        let vid = if idx % 4 == 0 {
            quad.x
        } else if idx % 4 == 1 {
            quad.y
        } else if idx % 4 == 2 {
            quad.z
        } else {
            quad.w
        };
        CubeVertex { pos: self.vert(vid), normal: no, uv: self.uv(idx) }
    }

    /// The number of shared vertices: four for each face.
    pub fn shared_vertex_count(&self) -> (r: usize)
        ensures
            r == 24,
    {
        24
    }

    /// Face `idx` as a quad of shared-vertex indices `4 * idx .. 4 * idx + 4`.
    pub fn indexed_polygon(&self, idx: usize) -> (r: Quad<usize>)
        requires
            idx < 6,
        ensures
            r == cube_indexed(idx as int),
    {
        Quad::new(idx * 4, idx * 4 + 1, idx * 4 + 2, idx * 4 + 3)
    }

    /// The number of indexed polygons: one quad per face.
    pub fn indexed_polygon_count(&self) -> (r: usize)
        ensures
            r == 6,
    {
        6
    }
}

/// Every coordinate of `p` is 1 or -1.
pub open spec fn on_cube_corner(p: Point3) -> bool {
    (p.x == 1 || p.x == -1) && (p.y == 1 || p.y == -1) && (p.z == 1 || p.z == -1)
}

pub open spec fn dot(a: Point3, b: Point3) -> int {
    a.x * b.x + a.y * b.y + a.z * b.z
}

/// The cross product `(b - a) x (c - b)`, which points out of the side from
/// which `a`, `b`, `c` are seen counter-clockwise.
pub open spec fn turn(a: Point3, b: Point3, c: Point3) -> (int, int, int) {
    (
        (b.y - a.y) * (c.z - b.z) - (b.z - a.z) * (c.y - b.y),
        (b.z - a.z) * (c.x - b.x) - (b.x - a.x) * (c.z - b.z),
        (b.x - a.x) * (c.y - b.y) - (b.y - a.y) * (c.x - b.x),
    )
}

/// The four corners of each face are four distinct corners of the cube
/// (each coordinate is 1 or -1), all on the plane of the face, and listed
/// counter-clockwise as seen from outside along the face's normal.
pub proof fn lemma_face_corners(f: int)
    requires
        0 <= f < 6,
    ensures
        forall|k: int| 0 <= k < 4 ==> on_cube_corner(#[trigger] corner(4 * f + k)),
        forall|k: int| 0 <= k < 4 ==> dot(#[trigger] corner(4 * f + k), face_normal(f)) == 1,
        forall|j: int, k: int|
            0 <= j < k < 4 ==> #[trigger] corner(4 * f + j) != #[trigger] corner(4 * f + k),
        turn(corner(4 * f), corner(4 * f + 1), corner(4 * f + 2)) == (
            4 * face_normal(f).x,
            4 * face_normal(f).y,
            4 * face_normal(f).z,
        ),
        turn(corner(4 * f + 2), corner(4 * f + 3), corner(4 * f)) == (
            4 * face_normal(f).x,
            4 * face_normal(f).y,
            4 * face_normal(f).z,
        ),
{
    assert forall|k: int| 0 <= k < 4 implies dot(#[trigger] corner(4 * f + k), face_normal(f))
        == 1 by {
        assert(f == 0 || f == 1 || f == 2 || f == 3 || f == 4 || f == 5);
        assert(k == 0 || k == 1 || k == 2 || k == 3);
    }
    if f == 0 {
        assert(corner(0).x == 1 && corner(0).y == -1 && corner(0).z == 1);
        assert(corner(1).x == 1 && corner(1).y == -1 && corner(1).z == -1);
        assert(corner(2).x == 1 && corner(2).y == 1 && corner(2).z == -1);
        assert(corner(3).x == 1 && corner(3).y == 1 && corner(3).z == 1);
        assert(turn(corner(0), corner(1), corner(2)) == (4int, 0int, 0int));
        assert(turn(corner(2), corner(3), corner(0)) == (4int, 0int, 0int));
    } else if f == 1 {
        assert(corner(4).x == 1 && corner(4).y == 1 && corner(4).z == 1);
        assert(corner(5).x == 1 && corner(5).y == 1 && corner(5).z == -1);
        assert(corner(6).x == -1 && corner(6).y == 1 && corner(6).z == -1);
        assert(corner(7).x == -1 && corner(7).y == 1 && corner(7).z == 1);
        assert(turn(corner(4), corner(5), corner(6)) == (0int, 4int, 0int));
        assert(turn(corner(6), corner(7), corner(4)) == (0int, 4int, 0int));
    } else if f == 2 {
        assert(corner(8).x == -1 && corner(8).y == 1 && corner(8).z == 1);
        assert(corner(9).x == -1 && corner(9).y == 1 && corner(9).z == -1);
        assert(corner(10).x == -1 && corner(10).y == -1 && corner(10).z == -1);
        assert(corner(11).x == -1 && corner(11).y == -1 && corner(11).z == 1);
        assert(turn(corner(8), corner(9), corner(10)) == (-4int, 0int, 0int));
        assert(turn(corner(10), corner(11), corner(8)) == (-4int, 0int, 0int));
    } else if f == 3 {
        assert(corner(12).x == -1 && corner(12).y == -1 && corner(12).z == 1);
        assert(corner(13).x == -1 && corner(13).y == -1 && corner(13).z == -1);
        assert(corner(14).x == 1 && corner(14).y == -1 && corner(14).z == -1);
        assert(corner(15).x == 1 && corner(15).y == -1 && corner(15).z == 1);
        assert(turn(corner(12), corner(13), corner(14)) == (0int, -4int, 0int));
        assert(turn(corner(14), corner(15), corner(12)) == (0int, -4int, 0int));
    } else if f == 4 {
        assert(corner(16).x == 1 && corner(16).y == -1 && corner(16).z == 1);
        assert(corner(17).x == 1 && corner(17).y == 1 && corner(17).z == 1);
        assert(corner(18).x == -1 && corner(18).y == 1 && corner(18).z == 1);
        assert(corner(19).x == -1 && corner(19).y == -1 && corner(19).z == 1);
        assert(turn(corner(16), corner(17), corner(18)) == (0int, 0int, 4int));
        assert(turn(corner(18), corner(19), corner(16)) == (0int, 0int, 4int));
    } else {
        assert(corner(20).x == 1 && corner(20).y == 1 && corner(20).z == -1);
        assert(corner(21).x == 1 && corner(21).y == -1 && corner(21).z == -1);
        assert(corner(22).x == -1 && corner(22).y == -1 && corner(22).z == -1);
        assert(corner(23).x == -1 && corner(23).y == 1 && corner(23).z == -1);
        assert(turn(corner(20), corner(21), corner(22)) == (0int, 0int, -4int));
        assert(turn(corner(22), corner(23), corner(20)) == (0int, 0int, -4int));
    }
}

/// Handing out a face and resolving that face's indexed quad through the
/// shared vertices give the same four vertices.
pub proof fn lemma_face_matches_indexed(f: int)
    requires
        0 <= f < 6,
    ensures
        cube_indexed(f).w < 24,
        cube_face(f) == (Quad {
            x: cube_vertex(cube_indexed(f).x as int),
            y: cube_vertex(cube_indexed(f).y as int),
            z: cube_vertex(cube_indexed(f).z as int),
            w: cube_vertex(cube_indexed(f).w as int),
        }),
{
}

/// Each face's texture coordinates are the four corners of one cell of the
/// 4 x 3 atlas grid, in the order (0,0), (1,0), (1,1), (0,1), and no two
/// faces share a cell.
pub proof fn lemma_atlas_cells(f: int, g: int)
    requires
        0 <= f < 6,
        0 <= g < 6,
    ensures
        0 <= cell_col(f) < 4,
        0 <= cell_row(f) < 3,
        forall|k: int|
            0 <= k < 4 ==> (#[trigger] cell_corner(4 * f + k)).col == cell_col(f)
                && cell_corner(4 * f + k).row == cell_row(f),
        !cell_corner(4 * f).right && !cell_corner(4 * f).up,
        cell_corner(4 * f + 1).right && !cell_corner(4 * f + 1).up,
        cell_corner(4 * f + 2).right && cell_corner(4 * f + 2).up,
        !cell_corner(4 * f + 3).right && cell_corner(4 * f + 3).up,
        f != g ==> cell_col(f) != cell_col(g) || cell_row(f) != cell_row(g),
{
    assert forall|k: int| 0 <= k < 4 implies (#[trigger] cell_corner(4 * f + k)).col == cell_col(f)
        && cell_corner(4 * f + k).row == cell_row(f) by {
        assert((4 * f + k) / 4 == f);
    }
    assert((4 * f + 1) % 4 == 1);
    assert((4 * f + 2) % 4 == 2);
    assert((4 * f + 3) % 4 == 3);
    assert((4 * f) % 4 == 0);
}

} // verus!
