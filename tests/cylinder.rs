use genmesh::{Cylinder, CylinderVertex, Facing, Polygon, Quad, TexPlace, Triangle};

fn indices(p: &Polygon<usize>) -> Vec<usize> {
    match p {
        Polygon::PolyTri(t) => vec![t.x, t.y, t.z],
        Polygon::PolyQuad(q) => vec![q.x, q.y, q.z, q.w],
    }
}

fn vertex(column: usize, level: usize, on_axis: bool, facing: Facing, tex: TexPlace) -> CylinderVertex {
    CylinderVertex { column, level, on_axis, facing, tex }
}

#[test]
fn cylinder_four_columns_counts() {
    let c = Cylinder::new(4);
    assert_eq!(c.sub_u(), 4);
    assert_eq!(c.sub_h(), 1);
    assert_eq!(c.shared_vertex_count(), 18);
    assert_eq!(c.indexed_polygon_count(), 12);
    let kinds: Vec<bool> = (0..12).map(|i| matches!(c.indexed_polygon(i), Polygon::PolyTri(_))).collect();
    assert_eq!(kinds.iter().filter(|t| **t).count(), 8);
    assert!(kinds[0..4].iter().all(|t| *t));
    assert!(kinds[4..8].iter().all(|t| !*t));
    assert!(kinds[8..12].iter().all(|t| *t));
}

#[test]
fn cylinder_counts_follow_dimensions() {
    for u in 2..9 {
        for h in 1..6 {
            let c = Cylinder::subdivide(u, h);
            assert_eq!(c.shared_vertex_count(), (3 + h) * u + 2);
            assert_eq!(c.indexed_polygon_count(), (2 + h) * u);
            let n = c.indexed_polygon_count();
            let tris = (0..n).filter(|i| matches!(c.indexed_polygon(*i), Polygon::PolyTri(_))).count();
            let quads = (0..n).filter(|i| matches!(c.indexed_polygon(*i), Polygon::PolyQuad(_))).count();
            assert_eq!(tris, 2 * u);
            assert_eq!(quads, h * u);
        }
    }
}

#[test]
fn cylinder_poles() {
    for (u, h) in [(2, 1), (4, 1), (7, 3)] {
        let c = Cylinder::subdivide(u, h);
        let last = c.shared_vertex_count() - 1;
        assert_eq!(c.shared_vertex(0), vertex(0, 0, true, Facing::Down, TexPlace::BottomCenter));
        assert_eq!(c.shared_vertex(last), vertex(0, h, true, Facing::Up, TexPlace::TopCenter));
    }
}

#[test]
fn cylinder_rings() {
    let c = Cylinder::new(4);
    assert_eq!(c.shared_vertex(1), vertex(0, 0, false, Facing::Down, TexPlace::BottomCircle));
    assert_eq!(c.shared_vertex(5), vertex(0, 0, false, Facing::Outward, TexPlace::SideStrip));
    assert_eq!(c.shared_vertex(10), vertex(1, 1, false, Facing::Outward, TexPlace::SideStrip));
    assert_eq!(c.shared_vertex(13), vertex(0, 1, false, Facing::Up, TexPlace::TopCircle));
    assert_eq!(c.shared_vertex(16), vertex(3, 1, false, Facing::Up, TexPlace::TopCircle));
}

#[test]
fn cylinder_side_vertices_off_axis() {
    let c = Cylinder::subdivide(5, 3);
    for i in 1..c.shared_vertex_count() - 1 {
        let v = c.shared_vertex(i);
        assert!(!v.on_axis);
        assert!(v.column < 5 && v.level <= 3);
        if v.tex == TexPlace::SideStrip {
            assert_eq!(v.facing, Facing::Outward);
        }
    }
}

#[test]
fn cylinder_polygons_four_columns() {
    let c = Cylinder::new(4);
    assert_eq!(c.indexed_polygon(0), Polygon::PolyTri(Triangle::new(1, 0, 2)));
    assert_eq!(c.indexed_polygon(3), Polygon::PolyTri(Triangle::new(4, 0, 1)));
    assert_eq!(c.indexed_polygon(4), Polygon::PolyQuad(Quad::new(5, 6, 10, 9)));
    assert_eq!(c.indexed_polygon(7), Polygon::PolyQuad(Quad::new(8, 5, 9, 12)));
    assert_eq!(c.indexed_polygon(8), Polygon::PolyTri(Triangle::new(13, 14, 17)));
    assert_eq!(c.indexed_polygon(11), Polygon::PolyTri(Triangle::new(16, 13, 17)));
}

#[test]
fn cylinder_seam_closes() {
    for (u, h) in [(2, 1), (4, 1), (6, 2)] {
        let c = Cylinder::subdivide(u, h);
        let bands = c.indexed_polygon_count() / u;
        for band in 0..bands {
            let last = indices(&c.indexed_polygon(band * u + u - 1));
            let first = indices(&c.indexed_polygon(band * u));
            if first.len() == 4 {
                assert_eq!(last[1], first[0]);
                assert_eq!(last[2], first[3]);
            } else if band == 0 {
                assert_eq!(last[2], first[0]);
            } else {
                assert_eq!(last[1], first[0]);
            }
            // the seam polygon reaches back to column 0
            let cols: Vec<usize> = last.iter().map(|i| c.shared_vertex(*i)).filter(|v| !v.on_axis).map(|v| v.column).collect();
            assert!(cols.contains(&0) && cols.contains(&(u - 1)));
        }
    }
}

#[test]
fn cylinder_indices_in_range() {
    let c = Cylinder::subdivide(6, 4);
    for i in 0..c.indexed_polygon_count() {
        for j in indices(&c.indexed_polygon(i)) {
            assert!(j < c.shared_vertex_count());
        }
    }
}

#[test]
fn cylinder_iteration_matches_indexed_form() {
    let mut c = Cylinder::subdivide(3, 2);
    let fixed = c;
    let n = fixed.indexed_polygon_count();
    assert_eq!(c.size_hint(), (n, Some(n)));
    for i in 0..n {
        let p = c.next().unwrap();
        let expected = match fixed.indexed_polygon(i) {
            Polygon::PolyTri(t) => Polygon::PolyTri(Triangle::new(
                fixed.shared_vertex(t.x),
                fixed.shared_vertex(t.y),
                fixed.shared_vertex(t.z),
            )),
            Polygon::PolyQuad(q) => Polygon::PolyQuad(Quad::new(
                fixed.shared_vertex(q.x),
                fixed.shared_vertex(q.y),
                fixed.shared_vertex(q.z),
                fixed.shared_vertex(q.w),
            )),
        };
        assert_eq!(p, expected);
        assert_eq!(c.size_hint(), (n - i - 1, Some(n - i - 1)));
    }
    assert!(c.next().is_none());
}
