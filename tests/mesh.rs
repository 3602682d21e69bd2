use famine::mesh::{sphere_corners, GenerationError, GridCorner, Mesh, TEXTURED_STRIDE};

fn corner(ring: u32, slice: u32) -> GridCorner {
    GridCorner { ring, slice }
}

#[test]
fn sphere_vertex_count_is_two_triangles_per_cell() {
    for (rings, slices) in [(3u32, 3u32), (3, 7), (30, 30), (5, 4)] {
        let corners = sphere_corners(rings, slices).unwrap();
        assert_eq!(corners.len(), (rings * slices * 2 * 3) as usize);
        assert_eq!(corners.len() % 3, 0);
    }
}

#[test]
fn sphere_first_cell_winding() {
    let corners = sphere_corners(3, 4).unwrap();
    assert_eq!(
        corners[0..6].to_vec(),
        vec![corner(1, 0), corner(1, 1), corner(0, 0), corner(0, 1), corner(0, 0), corner(1, 1)]
    );
}

#[test]
fn sphere_cells_run_ring_by_ring() {
    let corners = sphere_corners(3, 4).unwrap();
    // Second cell of the first ring.
    assert_eq!(corners[6], corner(1, 1));
    assert_eq!(corners[7], corner(1, 2));
    // First cell of the second ring (cell number 4).
    assert_eq!(corners[24], corner(2, 0));
    assert_eq!(corners[26], corner(1, 0));
    // Last cell: top ring boundary 3, right slice boundary 4.
    let last = corners.len() - 6;
    assert_eq!(corners[last..].to_vec(), vec![corner(3, 3), corner(3, 4), corner(2, 3), corner(2, 4), corner(2, 3), corner(3, 4)]);
}

#[test]
fn sphere_is_deterministic() {
    assert_eq!(sphere_corners(12, 9).unwrap(), sphere_corners(12, 9).unwrap());
}

#[test]
fn sphere_rejects_too_few_bands() {
    for (rings, slices) in [(2u32, 3u32), (3, 2), (0, 0), (1, 30), (30, 0)] {
        assert_eq!(sphere_corners(rings, slices), Err(GenerationError::InvalidParameters));
    }
}

#[test]
fn mesh_vertex_count_divides_by_stride() {
    let mesh = Mesh::new(vec![0.0f32; 30]);
    assert_eq!(mesh.vertex_count(TEXTURED_STRIDE), 6);
    assert_eq!(mesh.vertex_count(3), 10);
    let odd = Mesh::new(vec![1u8; 7]);
    assert_eq!(odd.vertex_count(TEXTURED_STRIDE), 1);
    assert_eq!(odd.vertices.len(), 7);
}

fn unit_record(c: GridCorner) -> [f32; 5] {
    let phi = std::f32::consts::PI / 2.0 + c.ring as f32;
    [phi.cos(), phi.sin(), c.slice as f32, 0.5, -1.0]
}

#[test]
fn sphere_mesh_holds_one_record_per_layout_vertex() {
    let mesh = Mesh::sphere(4, 5, unit_record).unwrap();
    assert_eq!(mesh.vertices.len(), 4 * 5 * 2 * 3 * 5);
    assert_eq!(mesh.vertex_count(TEXTURED_STRIDE) % 3, 0);
    let corners = sphere_corners(4, 5).unwrap();
    for (k, c) in corners.iter().enumerate() {
        assert_eq!(mesh.vertices[5 * k..5 * k + 5].to_vec(), unit_record(*c).to_vec());
    }
}

#[test]
fn sphere_mesh_is_bit_identical_across_calls() {
    let a = Mesh::sphere(30, 30, unit_record).unwrap();
    let b = Mesh::sphere(30, 30, unit_record).unwrap();
    let bits = |m: &Mesh<f32>| m.vertices.iter().map(|v| v.to_bits()).collect::<Vec<u32>>();
    assert_eq!(bits(&a), bits(&b));
    assert_eq!(a.vertex_count(TEXTURED_STRIDE), 30 * 30 * 6);
}

#[test]
fn sphere_mesh_fails_without_calling_the_record() {
    for (rings, slices) in [(2u32, 30u32), (30, 2), (0, 3)] {
        let r = Mesh::sphere(rings, slices, |_c: GridCorner| -> [f32; 5] { panic!("no record is asked for") });
        assert!(matches!(r, Err(GenerationError::InvalidParameters)));
    }
}
