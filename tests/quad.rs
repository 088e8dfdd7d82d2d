use adze::batch::MAX_QUADS;
use adze::layout::ShaderDataType;
use adze::quad::{
    quad_indices, quad_vertex_layout, quad_vertices, Color, QuadVertex, TexCoord, Vec2i, Vec3i,
};

#[test]
fn index_pattern_for_three_quads() {
    assert_eq!(
        quad_indices(3),
        vec![0, 1, 2, 2, 3, 0, 4, 5, 6, 6, 7, 4, 8, 9, 10, 10, 11, 8]
    );
}

#[test]
fn index_pattern_for_full_capacity() {
    let indices = quad_indices(MAX_QUADS);
    assert_eq!(indices.len(), 6 * MAX_QUADS);
    assert_eq!(indices.len(), 60000);
    for i in [0usize, 1, 1234, MAX_QUADS - 1] {
        let base = 4 * i as u32;
        assert_eq!(
            &indices[6 * i..6 * i + 6],
            &[base, base + 1, base + 2, base + 2, base + 3, base]
        );
    }
}

#[test]
fn index_pattern_for_no_quads_is_empty() {
    assert!(quad_indices(0).is_empty());
}

#[test]
fn quad_corners_in_order() {
    let color = Color { r: 10, g: 20, b: 30, a: 40 };
    let v = quad_vertices(Vec3i { x: 0, y: 0, z: 0 }, Vec2i { x: 2, y: 3 }, color, 5);
    let positions: Vec<(i32, i32, i32)> =
        v.iter().map(|q| (q.position.x, q.position.y, q.position.z)).collect();
    assert_eq!(positions, vec![(0, 0, 0), (2, 0, 0), (2, 3, 0), (0, 3, 0)]);
    let uvs: Vec<(u8, u8)> =
        v.iter().map(|q| (q.texture_coordinate.u, q.texture_coordinate.v)).collect();
    assert_eq!(uvs, vec![(0, 0), (1, 0), (1, 1), (0, 1)]);
    assert!(v.iter().all(|q| q.color == color && q.texture_index == 5));
}

#[test]
fn quad_corners_keep_depth_and_handle_negative_sizes() {
    let v = quad_vertices(
        Vec3i { x: -5, y: 7, z: 9 },
        Vec2i { x: -3, y: 4 },
        Color { r: 0, g: 0, b: 0, a: 255 },
        0,
    );
    assert_eq!(
        v[2],
        QuadVertex {
            position: Vec3i { x: -8, y: 11, z: 9 },
            color: Color { r: 0, g: 0, b: 0, a: 255 },
            texture_coordinate: TexCoord { u: 1, v: 1 },
            texture_index: 0,
        }
    );
    assert_eq!(v[3].position, Vec3i { x: -5, y: 11, z: 9 });
}

#[test]
fn quad_vertex_layout_is_forty_bytes() {
    let layout = quad_vertex_layout();
    assert_eq!(layout.stride(), 40);
    let types: Vec<ShaderDataType> = layout.elements().iter().map(|e| e.data_type()).collect();
    assert_eq!(
        types,
        vec![
            ShaderDataType::Float3,
            ShaderDataType::Float4,
            ShaderDataType::Float2,
            ShaderDataType::Float1
        ]
    );
    let offsets: Vec<i32> = layout.elements().iter().map(|e| e.offset()).collect();
    assert_eq!(offsets, vec![0, 12, 28, 36]);
}
