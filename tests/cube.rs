use genmesh::{CellCorner, Cube, CubeVertex, Point3, Quad};

fn corners(q: &Quad<CubeVertex>) -> [CubeVertex; 4] {
    [q.x, q.y, q.z, q.w]
}

fn all_faces() -> Vec<Quad<CubeVertex>> {
    let mut cube = Cube::new();
    let mut faces = Vec::new();
    while let Some(f) = cube.next() {
        faces.push(f);
    }
    faces
}

#[test]
fn cube_counts() {
    let cube = Cube::new();
    assert_eq!(cube.shared_vertex_count(), 24);
    assert_eq!(cube.indexed_polygon_count(), 6);
    assert_eq!(cube.size_hint(), (6, Some(6)));
}

#[test]
fn cube_iterates_six_quads_then_stops() {
    let mut cube = Cube::new();
    for n in 0..6 {
        assert_eq!(cube.size_hint(), (6 - n, Some(6 - n)));
        assert!(cube.next().is_some());
    }
    assert_eq!(cube.size_hint(), (0, Some(0)));
    assert!(cube.next().is_none());
    assert!(cube.next().is_none());
    // flattened, each quad gives two triangles
    assert_eq!(all_faces().len() * 2, 12);
}

#[test]
fn cube_faces_match_indexed_form() {
    let cube = Cube::new();
    let faces = all_faces();
    assert_eq!(faces.len(), 6);
    for (f, face) in faces.iter().enumerate() {
        let q = cube.indexed_polygon(f);
        assert_eq!(q, Quad::new(4 * f, 4 * f + 1, 4 * f + 2, 4 * f + 3));
        let resolved = Quad::new(
            cube.shared_vertex(q.x),
            cube.shared_vertex(q.y),
            cube.shared_vertex(q.z),
            cube.shared_vertex(q.w),
        );
        assert_eq!(*face, resolved);
    }
}

#[test]
fn cube_face_corners_are_distinct_unit_corners() {
    for face in all_faces() {
        let c = corners(&face);
        for v in c.iter() {
            for coord in [v.pos.x, v.pos.y, v.pos.z] {
                assert!(coord == 1 || coord == -1);
            }
            // every corner lies on the face's plane
            let n = v.normal;
            let dot = v.pos.x as i32 * n.x as i32 + v.pos.y as i32 * n.y as i32 + v.pos.z as i32 * n.z as i32;
            assert_eq!(dot, 1);
        }
        for i in 0..4 {
            for j in (i + 1)..4 {
                assert_ne!(c[i].pos, c[j].pos);
            }
        }
    }
}

#[test]
fn cube_eight_corners_three_times_each() {
    let cube = Cube::new();
    let positions: Vec<Point3> = (0..24).map(|i| cube.shared_vertex(i).pos).collect();
    let mut unique: Vec<Point3> = Vec::new();
    for p in positions.iter() {
        if !unique.contains(p) {
            unique.push(*p);
        }
    }
    assert_eq!(unique.len(), 8);
    for p in unique.iter() {
        assert_eq!(positions.iter().filter(|q| *q == p).count(), 3);
    }
}

#[test]
fn cube_first_vertex() {
    let cube = Cube::new();
    assert_eq!(
        cube.shared_vertex(0),
        CubeVertex {
            pos: Point3 { x: 1, y: -1, z: 1 },
            normal: Point3 { x: 1, y: 0, z: 0 },
            uv: CellCorner { col: 0, row: 1, right: false, up: false },
        }
    );
    assert_eq!(
        cube.shared_vertex(22),
        CubeVertex {
            pos: Point3 { x: -1, y: -1, z: -1 },
            normal: Point3 { x: 0, y: 0, z: -1 },
            uv: CellCorner { col: 1, row: 0, right: true, up: true },
        }
    );
}

#[test]
fn cube_normals_by_face() {
    let cube = Cube::new();
    let expected = [(1, 0, 0), (0, 1, 0), (-1, 0, 0), (0, -1, 0), (0, 0, 1), (0, 0, -1)];
    for (f, (x, y, z)) in expected.iter().enumerate() {
        for k in 0..4 {
            assert_eq!(cube.shared_vertex(4 * f + k).normal, Point3 { x: *x, y: *y, z: *z });
        }
    }
}

#[test]
fn cube_texture_cells_tile_the_grid() {
    let cube = Cube::new();
    let mut cells: Vec<(u8, u8)> = Vec::new();
    for f in 0..6 {
        let uv: Vec<CellCorner> = (0..4).map(|k| cube.shared_vertex(4 * f + k).uv).collect();
        let (col, row) = (uv[0].col, uv[0].row);
        assert!(col < 4 && row < 3);
        for c in uv.iter() {
            assert_eq!((c.col, c.row), (col, row));
        }
        let offsets: Vec<(bool, bool)> = uv.iter().map(|c| (c.right, c.up)).collect();
        assert_eq!(offsets, vec![(false, false), (true, false), (true, true), (false, true)]);
        assert!(!cells.contains(&(col, row)));
        cells.push((col, row));
    }
    assert_eq!(cells, vec![(0, 1), (1, 1), (2, 1), (3, 1), (1, 2), (1, 0)]);
}

#[test]
fn cube_faces_wind_counter_clockwise() {
    for face in all_faces() {
        let c = corners(&face);
        let d = |a: Point3, b: Point3| (b.x as i32 - a.x as i32, b.y as i32 - a.y as i32, b.z as i32 - a.z as i32);
        let u = d(c[0].pos, c[1].pos);
        let v = d(c[1].pos, c[2].pos);
        let cross = (u.1 * v.2 - u.2 * v.1, u.2 * v.0 - u.0 * v.2, u.0 * v.1 - u.1 * v.0);
        let n = c[0].normal;
        assert_eq!(cross, (4 * n.x as i32, 4 * n.y as i32, 4 * n.z as i32));
    }
}
