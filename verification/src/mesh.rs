//! Layout of the triangle's vertex and index data: the byte sizes handed
//! to the buffer-upload calls, and the bounds check an indexed draw
//! call depends on to stay inside the vertex buffer.

use vstd::prelude::*;

verus! {

/// Bytes of one vertex component, a 32-bit float.
pub const COMPONENT_BYTES: usize = 4;

/// Components per vertex: x, y and z.
pub const VERTEX_COMPONENTS: usize = 3;

/// Bytes from the start of one vertex to the start of the next.
pub const VERTEX_STRIDE: usize = VERTEX_COMPONENTS * COMPONENT_BYTES;

/// Bytes of one index, a 32-bit unsigned integer.
pub const INDEX_BYTES: usize = 4;

/// The byte size handed to a buffer-upload call for `count` elements of
/// `elem_bytes` each.
pub fn buffer_bytes(count: usize, elem_bytes: usize) -> (r: usize)
    requires
        count * elem_bytes <= usize::MAX,
    ensures
        r == count * elem_bytes,
{
    count * elem_bytes
}

/// A well-formed triangle list: whole triangles, every index pointing
/// at a vertex. An indexed draw over such a list reads only inside the
/// vertex buffer.
pub open spec fn valid_triangle_list(indices: Seq<u32>, vertex_count: u32) -> bool {
    &&& indices.len() % 3 == 0
    &&& forall|i: int| 0 <= i < indices.len() ==> indices[i] < vertex_count
}

/// Decides whether the index data forms a well-formed triangle list
/// over `vertex_count` vertices.
pub fn check_triangle_list(indices: &Vec<u32>, vertex_count: u32) -> (r: bool)
    ensures
        r == valid_triangle_list(indices@, vertex_count),
{
    if indices.len() % 3 != 0 {
        return false;
    }
    let mut idx: usize = 0;
    while idx < indices.len()
        invariant
            idx <= indices@.len(),
            forall|i: int| 0 <= i < idx ==> indices@[i] < vertex_count,
        decreases indices@.len() - idx,
    {
        if indices[idx] >= vertex_count {
            return false;
        }
        idx += 1;
    }
    true
}

} // verus!
