use vstd::prelude::*;

verus! {

/// The vertex count as the 16-bit index type sees it.
pub open spec fn fan_width(vertex_count: usize) -> int {
    vertex_count as int % 65536
}

/// The number of triangles in the fan over `vertex_count` vertices: none for
/// fewer than three, else one per vertex after the first two, counted in
/// 16-bit indices.
pub open spec fn fan_triangles(vertex_count: usize) -> int {
    if vertex_count < 3 || fan_width(vertex_count) < 2 {
        0
    } else {
        fan_width(vertex_count) - 2
    }
}

/// Triangle `t` of the index list is `(0, t + 1, t + 2)`.
pub open spec fn is_fan_triangle(indices: Seq<u16>, t: int) -> bool {
    &&& indices[3 * t] == 0
    &&& indices[3 * t + 1] == t + 1
    &&& indices[3 * t + 2] == t + 2
}

/// Triangle indices for a convex polygon drawn as a fan: triangle `t` is
/// `(0, t + 1, t + 2)`, every triangle sharing vertex 0.
pub fn fan_indices(vertex_count: usize) -> (r: Vec<u16>)
    requires
        vertex_count < 3 || vertex_count % 65536 != 0,
    ensures
        r.len() == 3 * fan_triangles(vertex_count),
        forall|t: int| 0 <= t < fan_triangles(vertex_count) ==> #[trigger] is_fan_triangle(r@, t),
{
    let mut indices: Vec<u16> = Vec::new();
    if vertex_count < 3 {
        return indices;
    }
    let width: u16 = (vertex_count % 65536) as u16;
    if width < 2 {
        return indices;
    }
    let last: u16 = width - 1;
    let mut i: u16 = 1;
    while i < last
        invariant
            width == fan_width(vertex_count),
            last == width - 1,
            1 <= i <= last || (last == 0 && i == 1),
            indices.len() == 3 * (i - 1),
            forall|t: int| 0 <= t < i - 1 ==> #[trigger] is_fan_triangle(indices@, t),
        decreases last - i,
    {
        let ghost before = indices@;
        indices.push(0);
        indices.push(i);
        indices.push(i + 1);
        assert forall|t: int| 0 <= t < i implies #[trigger] is_fan_triangle(indices@, t) by {
            if t < i - 1 {
                assert(is_fan_triangle(before, t));
            }
        }
        i = i + 1;
    }
    indices
}

/// Every index the fan uses names one of its vertices.
pub proof fn lemma_fan_indices_in_range(vertex_count: usize, t: int)
    requires
        0 <= t < fan_triangles(vertex_count),
    ensures
        t + 2 < fan_width(vertex_count) <= vertex_count,
{
}

/// A fan over `n` vertices has `n - 2` triangles when `3 <= n < 65536`
/// and none below three; triangle `t` is `(0, t + 1, t + 2)`.
pub proof fn lemma_fan_shape(vertex_count: usize, indices: Seq<u16>, t: int)
    ensures
        vertex_count < 3 ==> fan_triangles(vertex_count) == 0,
        3 <= vertex_count < 65536 ==> fan_triangles(vertex_count) == vertex_count - 2,
        is_fan_triangle(indices, t) ==> (indices[3 * t] == 0 && indices[3 * t + 1] == t + 1
            && indices[3 * t + 2] == t + 2),
{
}

} // verus!
