use webgl_canvas::mesh::{
    flatten_triangles, shorts_to_le_bytes, words_to_le_bytes, MeshData, MeshError,
};

fn bits3(v: [f32; 3]) -> [u32; 3] {
    [v[0].to_bits(), v[1].to_bits(), v[2].to_bits()]
}

fn bits4(v: [f32; 4]) -> [u32; 4] {
    [v[0].to_bits(), v[1].to_bits(), v[2].to_bits(), v[3].to_bits()]
}

fn quad_vertices() -> Vec<[u32; 3]> {
    vec![
        bits3([0.0, 0.0, 0.0]),
        bits3([0.5, 0.0, 0.0]),
        bits3([0.5, 0.5, 0.0]),
        bits3([0.0, 0.5, 0.0]),
    ]
}

fn red_colors(n: usize) -> Vec<[u32; 4]> {
    let mut colors = Vec::new();
    for _ in 0..n {
        colors.push(bits4([1.0, 0.0, 0.0, 1.0]));
    }
    colors
}

#[test]
fn quad_mesh_flattens_to_six_indices() {
    let mesh = MeshData::try_new(quad_vertices(), red_colors(4), &[[0, 1, 2], [0, 2, 3]])
        .expect("a quad of two triangles is a valid mesh");
    assert_eq!(mesh.vertex_count(), 4);
    assert_eq!(mesh.index_count(), 6);
    assert_eq!(mesh.index_data().as_slice(), &[0, 1, 2, 0, 2, 3]);
}

#[test]
fn color_count_mismatch_rejected() {
    let r = MeshData::try_new(quad_vertices(), red_colors(3), &[[0, 1, 2]]);
    assert_eq!(r.err(), Some(MeshError::ColorCountMismatch));
}

#[test]
fn index_out_of_bounds_rejected() {
    let r = MeshData::try_new(quad_vertices(), red_colors(4), &[[0, 1, 4]]);
    assert_eq!(r.err(), Some(MeshError::IndexOutOfBounds));
}

#[test]
fn boundary_index_accepted() {
    let r = MeshData::try_new(quad_vertices(), red_colors(4), &[[3, 3, 3]]);
    assert!(r.is_ok());
}

#[test]
fn empty_mesh_is_a_valid_no_op() {
    let mesh = MeshData::empty();
    assert_eq!(mesh.vertex_count(), 0);
    assert_eq!(mesh.index_count(), 0);
    assert!(mesh.vertex_buffer_bytes().is_empty());
    assert!(mesh.color_buffer_bytes().is_empty());
    assert!(mesh.index_buffer_bytes().is_empty());
}

#[test]
fn flatten_triangles_exact() {
    let flat = flatten_triangles(&[[9, 8, 7], [1, 2, 3]]);
    assert_eq!(flat, vec![9, 8, 7, 1, 2, 3]);
}

#[test]
fn vertex_buffer_bytes_are_little_endian_float_bits() {
    let mesh = MeshData::try_new(
        vec![bits3([0.5, -1.0, 2.0])],
        vec![bits4([0.0, 0.0, 0.0, 1.0])],
        &[],
    )
    .expect("a single vertex with one color is valid");
    let mut expected = Vec::new();
    for f in [0.5f32, -1.0, 2.0] {
        expected.extend(f.to_bits().to_le_bytes());
    }
    assert_eq!(mesh.vertex_buffer_bytes(), expected);
}

#[test]
fn color_buffer_bytes_are_little_endian_float_bits() {
    let mesh = MeshData::try_new(
        vec![bits3([0.0, 0.0, 0.0])],
        vec![bits4([0.25, 0.5, 0.75, 1.0])],
        &[],
    )
    .expect("a single vertex with one color is valid");
    let mut expected = Vec::new();
    for f in [0.25f32, 0.5, 0.75, 1.0] {
        expected.extend(f.to_bits().to_le_bytes());
    }
    assert_eq!(mesh.color_buffer_bytes(), expected);
}

#[test]
fn index_buffer_bytes_are_little_endian_shorts() {
    let mesh = MeshData::try_new(quad_vertices(), red_colors(4), &[[0, 1, 2], [0, 2, 3]])
        .expect("a quad of two triangles is a valid mesh");
    assert_eq!(
        mesh.index_buffer_bytes(),
        vec![0, 0, 1, 0, 2, 0, 0, 0, 2, 0, 3, 0]
    );
}

#[test]
fn byte_serializers_exact() {
    assert_eq!(
        words_to_le_bytes(&vec![0x0403_0201, 0xAABB_CCDD]),
        vec![0x01, 0x02, 0x03, 0x04, 0xDD, 0xCC, 0xBB, 0xAA]
    );
    assert_eq!(shorts_to_le_bytes(&vec![0x0102, 0xFFEE]), vec![0x02, 0x01, 0xEE, 0xFF]);
}

#[test]
fn identical_meshes_produce_identical_payloads() {
    let a = MeshData::try_new(quad_vertices(), red_colors(4), &[[0, 1, 2], [0, 2, 3]])
        .expect("a quad of two triangles is a valid mesh");
    let b = MeshData::try_new(quad_vertices(), red_colors(4), &[[0, 1, 2], [0, 2, 3]])
        .expect("a quad of two triangles is a valid mesh");
    assert_eq!(a.vertex_buffer_bytes(), b.vertex_buffer_bytes());
    assert_eq!(a.color_buffer_bytes(), b.color_buffer_bytes());
    assert_eq!(a.index_buffer_bytes(), b.index_buffer_bytes());
}
