//! Grid line directions and the index layout of the line strips that draw grid segments.

use vstd::prelude::*;

verus! {

/// Abstract axis along which a grid segment runs.
#[derive(Debug, Clone, Copy, PartialEq, Eq, Hash, Structural)]
pub enum SegmentDir {
    X,
    Y,
    Z,
}

impl Default for SegmentDir {
    /// Segments run along the first axis unless told otherwise.
    fn default() -> (r: SegmentDir)
        ensures
            r == SegmentDir::X,
    {
        SegmentDir::X
    }
}

/// Line index pairs of an edge with `nb_vertices` vertices: pair `i` joins vertex `i` to
/// vertex `i + 1`, both truncated to 32 bits as the GPU index buffer stores them.
pub fn build_indices(nb_vertices: usize) -> (r: Vec<[u32; 2]>)
    ensures
        r@.len() == nb_vertices,
        forall|i: int|
            0 <= i < nb_vertices ==> #[trigger] r@[i] == [i as u32, (i + 1) as u32],
{
    let mut indices: Vec<[u32; 2]> = Vec::new();
    let mut i: usize = 0;
    while i < nb_vertices
        invariant
            i <= nb_vertices,
            indices@.len() == i,
            forall|j: int| 0 <= j < i ==> #[trigger] indices@[j] == [j as u32, (j + 1) as u32],
        decreases nb_vertices - i,
    {
        let pair: [u32; 2] = [i as u32, (i + 1) as u32];
        indices.push(pair);
        i = i + 1;
    }
    indices
}

} // verus!
