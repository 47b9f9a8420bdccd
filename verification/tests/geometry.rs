use rectbatch::geometry::{
    build_indices, build_vertices, quad_corner, quad_index, scene_rects, Mesh, Rect, Vertex,
    INDICES_PER_RECT, MAX_RECTS, RECT_UNITS, TEMPLATE_DIVISOR, VERTEX_UNITS, VERTICES_PER_RECT,
};

fn ndc(units: i64) -> f32 {
    units as f32 / VERTEX_UNITS as f32
}

fn some_rects(n: usize) -> Vec<Rect> {
    (0..n)
        .map(|i| Rect { cx: i as i32 - 50, cy: 3 * i as i32, hw: 1 + i as i32, hh: 2 + i as i32 })
        .collect()
}

#[test]
fn units_fit_together() {
    assert_eq!(VERTEX_UNITS, RECT_UNITS * TEMPLATE_DIVISOR);
    assert_eq!(VERTICES_PER_RECT, 4);
    assert_eq!(INDICES_PER_RECT, 6);
    assert_eq!(MAX_RECTS * VERTICES_PER_RECT, 65536);
}

#[test]
fn scene_has_five_rectangles() {
    let rects = scene_rects();
    assert_eq!(
        rects,
        vec![
            Rect { cx: -60, cy: -40, hw: 18, hh: 18 },
            Rect { cx: -10, cy: -20, hw: 12, hh: 22 },
            Rect { cx: 50, cy: -30, hw: 25, hh: 10 },
            Rect { cx: -20, cy: 50, hw: 15, hh: 15 },
            Rect { cx: 60, cy: 50, hw: 10, hh: 20 },
        ]
    );
}

#[test]
fn mesh_of_n_rectangles_has_4n_vertices_and_6n_indices() {
    for n in [0usize, 1, 2, 5, 7, 100] {
        let mesh = Mesh::build(&some_rects(n));
        assert_eq!(mesh.vertices().len(), 4 * n);
        assert_eq!(mesh.vertex_count(), 4 * n);
        assert_eq!(mesh.indices().len(), 6 * n);
        assert_eq!(mesh.index_count() as usize, 6 * n);
        assert_eq!(mesh.index_count() % 3, 0);
        assert_eq!(mesh.triangle_count() as usize, 2 * n);
        assert!(mesh.indices().iter().all(|&i| (i as usize) < 4 * n));
    }
}

#[test]
fn empty_list_gives_empty_mesh() {
    let mesh = Mesh::build(&[]);
    assert!(mesh.vertices().is_empty());
    assert!(mesh.indices().is_empty());
    assert_eq!(mesh.index_count(), 0);
    assert_eq!(mesh.triangle_count(), 0);
    assert!(mesh.index_bytes().is_empty());
}

#[test]
fn scene_mesh_has_twenty_vertices_and_thirty_indices() {
    let mesh = Mesh::build(&scene_rects());
    assert_eq!(mesh.vertex_count(), 20);
    assert_eq!(mesh.index_count(), 30);
    assert_eq!(mesh.triangle_count(), 10);
}

#[test]
fn corners_of_the_first_scene_rectangle() {
    let mesh = Mesh::build(&[Rect { cx: -60, cy: -40, hw: 18, hh: 18 }]);
    assert_eq!(
        mesh.vertices(),
        &[
            Vertex { x: -258, y: -178 },
            Vertex { x: -222, y: -178 },
            Vertex { x: -222, y: -142 },
            Vertex { x: -258, y: -142 },
        ]
    );
    let positions: Vec<(f32, f32)> = mesh.vertices().iter().map(|v| (ndc(v.x), ndc(v.y))).collect();
    assert_eq!(
        positions,
        vec![(-0.645, -0.445), (-0.555, -0.445), (-0.555, -0.355), (-0.645, -0.355)]
    );
}

#[test]
fn corners_follow_the_quarter_template() {
    let rects = scene_rects();
    let mesh = Mesh::build(&rects);
    let template: [(f32, f32); 4] = [(-0.25, -0.25), (0.25, -0.25), (0.25, 0.25), (-0.25, 0.25)];
    for (i, r) in rects.iter().enumerate() {
        let (cx, cy) = (r.cx as f32 / 100.0, r.cy as f32 / 100.0);
        let (hw, hh) = (r.hw as f32 / 100.0, r.hh as f32 / 100.0);
        for (k, (tx, ty)) in template.iter().enumerate() {
            let v = mesh.vertices()[4 * i + k];
            assert!((ndc(v.x) - (cx + tx * hw)).abs() < 1e-6);
            assert!((ndc(v.y) - (cy + ty * hh)).abs() < 1e-6);
        }
    }
}

#[test]
fn corners_are_exact_for_odd_half_extents() {
    let r = Rect { cx: 1, cy: -1, hw: 3, hh: 5 };
    assert_eq!(quad_corner(r, 0), Vertex { x: 1, y: -9 });
    assert_eq!(quad_corner(r, 1), Vertex { x: 7, y: -9 });
    assert_eq!(quad_corner(r, 2), Vertex { x: 7, y: 1 });
    assert_eq!(quad_corner(r, 3), Vertex { x: 1, y: 1 });
}

#[test]
fn corners_of_extreme_rectangles_do_not_overflow() {
    let r = Rect { cx: i32::MAX, cy: i32::MIN, hw: i32::MAX, hh: i32::MIN };
    assert_eq!(
        quad_corner(r, 2),
        Vertex { x: 5 * (i32::MAX as i64), y: 5 * (i32::MIN as i64) }
    );
    assert_eq!(
        quad_corner(r, 0),
        Vertex { x: 3 * (i32::MAX as i64), y: 3 * (i32::MIN as i64) }
    );
}

#[test]
fn index_template_is_two_triangles() {
    let template: Vec<u16> = (0..6).map(quad_index).collect();
    assert_eq!(template, vec![0, 1, 2, 0, 2, 3]);
}

#[test]
fn indices_are_offset_by_four_per_rectangle() {
    let mesh = Mesh::build(&some_rects(3));
    assert_eq!(
        mesh.indices(),
        &[0, 1, 2, 0, 2, 3, 4, 5, 6, 4, 6, 7, 8, 9, 10, 8, 10, 11]
    );
    assert_eq!(build_indices(2), vec![0, 1, 2, 0, 2, 3, 4, 5, 6, 4, 6, 7]);
}

#[test]
fn vertices_keep_the_order_of_the_rectangles() {
    let rects = some_rects(4);
    let vertices = build_vertices(&rects);
    for (i, r) in rects.iter().enumerate() {
        for k in 0..4 {
            assert_eq!(vertices[4 * i + k], quad_corner(*r, k));
        }
    }
}

#[test]
fn largest_batch_uses_every_sixteen_bit_index() {
    let rects = vec![Rect { cx: 0, cy: 0, hw: 1, hh: 1 }; MAX_RECTS];
    let mesh = Mesh::build(&rects);
    assert_eq!(mesh.vertex_count(), 65536);
    assert_eq!(mesh.index_count(), 98304);
    assert_eq!(mesh.indices()[98303], 65535);
    assert_eq!(mesh.indices()[98298], 65532);
    assert!(mesh.indices().iter().all(|&i| (i as usize) < mesh.vertex_count()));
}

#[test]
fn both_triangles_of_every_scene_quad_wind_counter_clockwise() {
    let rects = scene_rects();
    let mesh = Mesh::build(&rects);
    assert_eq!(mesh.indices().len() % 3, 0);
    for (t, triangle) in mesh.indices().chunks(3).enumerate() {
        let a = mesh.vertices()[triangle[0] as usize];
        let b = mesh.vertices()[triangle[1] as usize];
        let c = mesh.vertices()[triangle[2] as usize];
        let doubled = (b.x - a.x) * (c.y - a.y) - (c.x - a.x) * (b.y - a.y);
        let r = rects[t / 2];
        assert_eq!(doubled, 4 * r.hw as i64 * r.hh as i64);
        assert!(doubled > 0);
    }
}

#[test]
fn index_bytes_hold_each_index_in_machine_byte_order() {
    let mesh = Mesh::build(&some_rects(300));
    let expected: Vec<u8> = mesh.indices().iter().flat_map(|i| i.to_ne_bytes()).collect();
    assert_eq!(mesh.index_bytes().len(), 2 * mesh.indices().len());
    assert_eq!(mesh.index_bytes(), expected.as_slice());
    // Index 1199 is 0x04AF: both of its bytes are there, in one order or the other.
    let last = &mesh.index_bytes()[2 * 1799..];
    assert!(last == [0xAF, 0x04] || last == [0x04, 0xAF]);
}
