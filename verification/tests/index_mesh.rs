use quad_draw::mesh::{IndexMesh, CIRCLE_DIVISIONS};

#[test]
fn quad_exact_indices() {
    let m = IndexMesh::quad();
    assert_eq!(m.vertex_count, 4);
    assert_eq!(m.indices, vec![0, 1, 2, 0, 2, 3]);
}

#[test]
fn thick_line_exact_indices() {
    let m = IndexMesh::thick_line();
    assert_eq!(m.vertex_count, 4);
    assert_eq!(m.indices, vec![0, 1, 2, 2, 1, 3]);
}

#[test]
fn fan_of_zero_segments_is_empty() {
    let m = IndexMesh::fan(0);
    assert_eq!(m.vertex_count, 2);
    assert_eq!(m.indices, Vec::<u16>::new());
}

#[test]
fn fan_of_one_segment() {
    let m = IndexMesh::fan(1);
    assert_eq!(m.vertex_count, 3);
    assert_eq!(m.indices, vec![0, 1, 2]);
}

#[test]
fn fan_of_three_segments() {
    let m = IndexMesh::fan(3);
    assert_eq!(m.vertex_count, 5);
    assert_eq!(m.indices, vec![0, 1, 2, 0, 2, 3, 0, 3, 4]);
}

#[test]
fn fan_for_a_circle() {
    let m = IndexMesh::fan(CIRCLE_DIVISIONS);
    assert_eq!(m.vertex_count, 22);
    assert_eq!(m.indices.len(), 60);
    let mut expected: Vec<u16> = Vec::new();
    for k in 0..CIRCLE_DIVISIONS {
        expected.push(0);
        expected.push(k + 1);
        expected.push(k + 2);
    }
    assert_eq!(m.indices, expected);
}

#[test]
fn fan_indices_stay_in_vertex_range() {
    for divisions in [0u16, 1, 2, 20, 100, 0xFFFD] {
        let m = IndexMesh::fan(divisions);
        assert_eq!(m.indices.len(), 3 * divisions as usize);
        assert!(m.indices.iter().all(|&ix| (ix as u32) < m.vertex_count as u32));
    }
}

#[test]
fn fan_at_largest_size() {
    let m = IndexMesh::fan(0xFFFD);
    assert_eq!(m.vertex_count, u16::MAX);
    assert_eq!(*m.indices.last().unwrap(), 0xFFFE);
}
