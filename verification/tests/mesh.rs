use gl_triangle::mesh::{
    buffer_bytes, check_triangle_list, COMPONENT_BYTES, INDEX_BYTES, VERTEX_COMPONENTS,
    VERTEX_STRIDE,
};

#[test]
fn one_triangle_of_vertex_data_takes_36_bytes() {
    // Three vertices of three 4-byte components each.
    let float_count = 3 * VERTEX_COMPONENTS;
    assert_eq!(buffer_bytes(float_count, COMPONENT_BYTES), 36);
}

#[test]
fn one_triangle_of_index_data_takes_12_bytes() {
    assert_eq!(buffer_bytes(3, INDEX_BYTES), 12);
}

#[test]
fn empty_buffer_takes_no_bytes() {
    assert_eq!(buffer_bytes(0, COMPONENT_BYTES), 0);
}

#[test]
fn vertex_stride_is_three_floats() {
    assert_eq!(VERTEX_STRIDE, 12);
}

#[test]
fn the_triangle_indices_are_valid() {
    let indices: Vec<u32> = vec![0, 1, 2];
    assert!(check_triangle_list(&indices, 3));
}

#[test]
fn an_index_past_the_vertices_is_invalid() {
    let indices: Vec<u32> = vec![0, 1, 3];
    assert!(!check_triangle_list(&indices, 3));
}

#[test]
fn a_partial_triangle_is_invalid() {
    let indices: Vec<u32> = vec![0, 1];
    assert!(!check_triangle_list(&indices, 3));
}

#[test]
fn an_empty_index_list_is_valid() {
    let indices: Vec<u32> = Vec::new();
    assert!(check_triangle_list(&indices, 0));
}
