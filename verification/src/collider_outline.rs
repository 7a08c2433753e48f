use vstd::prelude::*;

verus! {

/// The debug line buffer that an entity's collider outline goes to: the
/// entity's index modulo the number of buffers.
pub fn collider_line_index(entity_index: u32, line_buffer_count: usize) -> (i: usize)
    requires
        line_buffer_count > 0,
    ensures
        i == entity_index as int % line_buffer_count as int,
        i < line_buffer_count,
{
    (entity_index as usize) % line_buffer_count
}

/// The points that an outline adds to a line buffer: for each edge, its two
/// end vertices, then the separator that breaks the line.
pub open spec fn outline_points<V>(vertices: Seq<V>, edges: Seq<[u32; 2]>, separator: V) -> Seq<V>
    decreases edges.len(),
{
    if edges.len() == 0 {
        Seq::empty()
    } else {
        let edge = edges.last();
        outline_points(vertices, edges.drop_last(), separator)
            + seq![vertices[edge@[0] as int], vertices[edge@[1] as int], separator]
    }
}

/// Whether every edge names vertices that exist.
pub open spec fn edges_in_range<V>(vertices: Seq<V>, edges: Seq<[u32; 2]>) -> bool {
    forall|k: int| #![trigger edges[k]]
        0 <= k < edges.len() ==> (edges[k]@[0] as int) < vertices.len() && (edges[k]@[1] as int) < vertices.len()
}

/// Appends the outline of a shape, given by its (already placed) vertices
/// and its edges as pairs of vertex indices, to a line buffer.
pub fn append_outline<V: Copy>(lines: &mut Vec<V>, vertices: &Vec<V>, edges: &Vec<[u32; 2]>, separator: V)
    requires
        edges_in_range(vertices@, edges@),
    ensures
        final(lines)@ == old(lines)@ + outline_points(vertices@, edges@, separator),
{
    let ghost start = lines@;
    let mut k: usize = 0;
    while k < edges.len()
        invariant
            0 <= k <= edges@.len(),
            edges_in_range(vertices@, edges@),
            lines@ == start + outline_points(vertices@, edges@.subrange(0, k as int), separator),
        decreases edges@.len() - k,
    {
        let edge = edges[k];
        let a = edge[0] as usize;
        let b = edge[1] as usize;
        assert(edges@[k as int] == edge);
        lines.push(vertices[a]);
        lines.push(vertices[b]);
        lines.push(separator);
        assert(edges@.subrange(0, k + 1).drop_last() =~= edges@.subrange(0, k as int));
        assert(edges@.subrange(0, k + 1).last() == edge);
        k = k + 1;
    }
    assert(edges@.subrange(0, edges@.len() as int) =~= edges@);
}

/// An outline adds three points per edge: the edge's ends, then the
/// separator.
pub proof fn lemma_outline_points<V>(vertices: Seq<V>, edges: Seq<[u32; 2]>, separator: V)
    ensures
        outline_points(vertices, edges, separator).len() == 3 * edges.len(),
        forall|k: int| #![trigger edges[k]] 0 <= k < edges.len() ==> {
            &&& outline_points(vertices, edges, separator)[3 * k] == vertices[edges[k]@[0] as int]
            &&& outline_points(vertices, edges, separator)[3 * k + 1] == vertices[edges[k]@[1] as int]
            &&& outline_points(vertices, edges, separator)[3 * k + 2] == separator
        },
    decreases edges.len(),
{
    if edges.len() > 0 {
        let rest = edges.drop_last();
        lemma_outline_points(vertices, rest, separator);
        assert forall|k: int| #![trigger edges[k]] 0 <= k < edges.len() implies {
            &&& outline_points(vertices, edges, separator)[3 * k] == vertices[edges[k]@[0] as int]
            &&& outline_points(vertices, edges, separator)[3 * k + 1] == vertices[edges[k]@[1] as int]
            &&& outline_points(vertices, edges, separator)[3 * k + 2] == separator
        } by {
            if k < edges.len() - 1 {
                assert(rest[k] == edges[k]);
            }
        }
    }
}

} // verus!
