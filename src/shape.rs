//! Index buffers of procedural meshes.
use vstd::prelude::*;

verus! {

/// The index of the vertex after `i` on a ring of `s` vertices that starts at 1.
pub open spec fn ring_next(s: int, i: int) -> int {
    (i + 1) % s + 1
}

/// The bottom fan triangle `i`: centre, ring vertex `i`, the next one.
pub open spec fn bottom_ok(r: Seq<u32>, s: int, i: int) -> bool {
    &&& r[3 * i] == 0
    &&& r[3 * i + 1] == i + 1
    &&& r[3 * i + 2] == ring_next(s, i)
}

/// The two side triangles of segment `i`, joining the bottom ring (from 1)
/// to the top ring (from `s + 1`).
pub open spec fn side_ok(r: Seq<u32>, s: int, i: int) -> bool {
    let k = 3 * s + 6 * i;
    &&& r[k] == i + 1
    &&& r[k + 1] == i + s + 1
    &&& r[k + 2] == ring_next(s, i)
    &&& r[k + 3] == i + s + 1
    &&& r[k + 4] == ring_next(s, i) + s
    &&& r[k + 5] == ring_next(s, i)
}

/// The top fan triangle `i`: top centre `2s + 1`, the next top ring vertex,
/// top ring vertex `i`.
pub open spec fn top_ok(r: Seq<u32>, s: int, i: int) -> bool {
    let k = 9 * s + 3 * i;
    &&& r[k] == 2 * s + 1
    &&& r[k + 1] == ring_next(s, i) + s
    &&& r[k + 2] == i + s + 1
}

/// The triangle-list index buffer of a capped cylinder with `segments`
/// sides, over `2·segments + 2` vertices: bottom centre 0, bottom ring
/// `1..=segments`, top ring `segments + 1..=2·segments`, top centre
/// `2·segments + 1`. Bottom fan, then side quads, then top fan.
pub fn cylinder_indices(segments: u32) -> (r: Vec<u32>)
    requires
        2 * segments + 1 <= u32::MAX,
    ensures
        r@.len() == 12 * segments,
        forall|i: int| 0 <= i < segments ==> #[trigger] bottom_ok(r@, segments as int, i),
        forall|i: int| 0 <= i < segments ==> #[trigger] side_ok(r@, segments as int, i),
        forall|i: int| 0 <= i < segments ==> #[trigger] top_ok(r@, segments as int, i),
        forall|k: int| 0 <= k < r@.len() ==> r@[k] < 2 * segments + 2,
{
    let s = segments;
    let ghost si = s as int;
    let mut r: Vec<u32> = Vec::new();
    let mut i: u32 = 0;
    while i < s
        invariant
            2 * s + 1 <= u32::MAX,
            si == s,
            i <= s,
            r@.len() == 3 * i,
            forall|j: int| 0 <= j < i ==> #[trigger] bottom_ok(r@, si, j),
            forall|k: int| 0 <= k < r@.len() ==> r@[k] < 2 * s + 2,
        decreases s - i,
    {
        let ghost prev = r@;
        r.push(0);
        r.push(i + 1);
        r.push((i + 1) % s + 1);
        assert forall|j: int| 0 <= j < i + 1 implies #[trigger] bottom_ok(r@, si, j) by {
            if j < i {
                assert(bottom_ok(prev, si, j));
            }
        }
        i = i + 1;
    }
    let mut i: u32 = 0;
    while i < s
        invariant
            2 * s + 1 <= u32::MAX,
            si == s,
            i <= s,
            r@.len() == 3 * s + 6 * i,
            forall|j: int| 0 <= j < s ==> #[trigger] bottom_ok(r@, si, j),
            forall|j: int| 0 <= j < i ==> #[trigger] side_ok(r@, si, j),
            forall|k: int| 0 <= k < r@.len() ==> r@[k] < 2 * s + 2,
        decreases s - i,
    {
        let ghost prev = r@;
        let next = (i + 1) % s + 1;
        r.push(i + 1);
        r.push((i + s) + 1);
        r.push(next);
        r.push((i + s) + 1);
        r.push(next + s);
        r.push(next);
        assert forall|j: int| 0 <= j < s implies #[trigger] bottom_ok(r@, si, j) by {
            assert(bottom_ok(prev, si, j));
        }
        assert forall|j: int| 0 <= j < i + 1 implies #[trigger] side_ok(r@, si, j) by {
            if j < i {
                assert(side_ok(prev, si, j));
            }
        }
        i = i + 1;
    }
    let mut i: u32 = 0;
    while i < s
        invariant
            2 * s + 1 <= u32::MAX,
            si == s,
            i <= s,
            r@.len() == 9 * s + 3 * i,
            forall|j: int| 0 <= j < s ==> #[trigger] bottom_ok(r@, si, j),
            forall|j: int| 0 <= j < s ==> #[trigger] side_ok(r@, si, j),
            forall|j: int| 0 <= j < i ==> #[trigger] top_ok(r@, si, j),
            forall|k: int| 0 <= k < r@.len() ==> r@[k] < 2 * s + 2,
        decreases s - i,
    {
        let ghost prev = r@;
        r.push(2 * s + 1);
        r.push((i + 1) % s + s + 1);
        r.push(i + s + 1);
        assert forall|j: int| 0 <= j < s implies #[trigger] bottom_ok(r@, si, j) by {
            assert(bottom_ok(prev, si, j));
        }
        assert forall|j: int| 0 <= j < s implies #[trigger] side_ok(r@, si, j) by {
            assert(side_ok(prev, si, j));
        }
        assert forall|j: int| 0 <= j < i + 1 implies #[trigger] top_ok(r@, si, j) by {
            if j < i {
                assert(top_ok(prev, si, j));
            }
        }
        i = i + 1;
    }
    r
}

/// The number of vertices of the player silhouette: a base point, the body's
/// top square, the neck square, and the head's top square.
pub const PLAYER_VERTEX_COUNT: u32 = 13;

pub open spec fn player_index_seq() -> Seq<u32> {
    seq![
        2, 0, 1, 3, 0, 2, 4, 0, 3, 1, 0, 4, 2, 1, 6, 6, 1, 5, 3, 2, 7, 7, 2, 6, 4, 3, 8, 8, 3, 7,
        1, 4, 5, 5, 4, 8, 6, 5, 10, 10, 5, 9, 7, 6, 11, 11, 6, 10, 8, 7, 12, 12, 7, 11, 5, 8, 9, 9,
        8, 12, 10, 9, 11, 11, 9, 12,
    ]
}

/// The triangle-list index buffer of the player silhouette: a pyramid body
/// under a box head, 22 triangles over its 13 vertices.
pub fn player_indices() -> (r: Vec<u32>)
    ensures
        r@ == player_index_seq(),
        r@.len() == 66,
        forall|k: int| 0 <= k < r@.len() ==> r@[k] < PLAYER_VERTEX_COUNT,
{
    let r: Vec<u32> = vec![
        2, 0, 1, 3, 0, 2, 4, 0, 3, 1, 0, 4, 2, 1, 6, 6, 1, 5, 3, 2, 7, 7, 2, 6, 4, 3, 8, 8, 3, 7,
        1, 4, 5, 5, 4, 8, 6, 5, 10, 10, 5, 9, 7, 6, 11, 11, 6, 10, 8, 7, 12, 12, 7, 11, 5, 8, 9, 9,
        8, 12, 10, 9, 11, 11, 9, 12,
    ];
    assert(r@ =~= player_index_seq());
    r
}

} // verus!
