//! Laws of the triangle test: how it behaves under relabelling of the
//! vertices, for rays parallel to the triangle, and through its centroid.
use vstd::prelude::*;

use crate::algebra::{
    lemma_cross_neg_right, lemma_cross_self, lemma_cross_sub_left, lemma_cross_sub_right,
    lemma_dot_add_left, lemma_dot_neg_right, lemma_dot_scale_left, lemma_dot_sub_left,
    lemma_dot_sub_right, lemma_triple_cyclic, lemma_triple_repeat, lemma_triple_swap, triple,
};
use crate::line::{det_of, u_of, v_of, Line, DET_EPSILON};
use crate::vec3::{cross, dot, neg, scale, vadd, vsub, IVec3, V3};

verus! {

proof fn lemma_det_mirror(d: V3, a: V3, b: V3, c: V3)
    ensures
        det_of(d, a, b, c) == triple(vsub(b, a), d, vsub(c, a)),
        det_of(d, a, b, c) == -triple(vsub(c, a), d, vsub(b, a)),
        det_of(d, a, c, b) == -det_of(d, a, b, c),
{
    let (e1, e2) = (vsub(b, a), vsub(c, a));
    lemma_triple_swap(e1, d, e2);
    lemma_triple_cyclic(e1, e2, d);
}

proof fn lemma_rotation_identities(o: V3, d: V3, a: V3, b: V3, c: V3)
    ensures
        det_of(d, b, c, a) == det_of(d, a, b, c),
        u_of(o, d, b, c, a) == v_of(o, d, a, b, c),
        v_of(o, d, b, c, a) == det_of(d, a, b, c) - u_of(o, d, a, b, c) - v_of(o, d, a, b, c),
{
    let (e1, e2, tv) = (vsub(b, a), vsub(c, a), vsub(o, a));
    let det = det_of(d, a, b, c);
    let u = u_of(o, d, a, b, c);
    let v = v_of(o, d, a, b, c);
    assert(vsub(c, b) == vsub(e2, e1));
    assert(vsub(a, b) == neg(e1));
    assert(vsub(o, b) == vsub(tv, e1));
    lemma_det_mirror(d, a, b, c);
    // The determinant.
    lemma_cross_neg_right(d, e1);
    let w = cross(d, e1);
    lemma_dot_sub_left(e2, e1, neg(w));
    lemma_dot_neg_right(e2, w);
    lemma_dot_neg_right(e1, w);
    lemma_triple_repeat(e1, d);
    assert(det_of(d, b, c, a) == -triple(e2, d, e1));
    // The first coordinate.
    lemma_dot_sub_left(tv, e1, neg(w));
    lemma_dot_neg_right(tv, w);
    assert(u_of(o, d, b, c, a) == -triple(tv, d, e1));
    lemma_triple_cyclic(d, tv, e1);
    lemma_triple_swap(tv, e1, d);
    assert(v == -triple(tv, d, e1));
    // The second coordinate.
    lemma_cross_sub_left(tv, e1, vsub(e2, e1));
    lemma_cross_sub_right(tv, e2, e1);
    lemma_cross_sub_right(e1, e2, e1);
    lemma_cross_self(e1);
    let ct = cross(tv, vsub(e2, e1));
    let ce = cross(e1, vsub(e2, e1));
    lemma_dot_sub_right(d, ct, ce);
    lemma_dot_sub_right(d, cross(tv, e2), cross(tv, e1));
    lemma_dot_sub_right(d, cross(e1, e2), cross(e1, e1));
    assert(dot(d, cross(e1, e1)) == 0);
    assert(v_of(o, d, b, c, a) == triple(d, tv, e2) - triple(d, tv, e1) - triple(d, e1, e2));
    lemma_triple_cyclic(d, tv, e2);
    lemma_triple_swap(tv, e2, d);
    assert(triple(d, tv, e2) == -u);
    lemma_triple_cyclic(d, e1, e2);
    lemma_triple_swap(e1, e2, d);
    assert(triple(d, e1, e2) == -det);
}

/// Relabelling a triangle's vertices by an even permutation (a rotation of
/// `a b c` to `b c a`) does not change whether a ray hits it.
pub proof fn lemma_hit_invariant_under_rotation(l: Line, tri: [IVec3; 3], rotated: [IVec3; 3])
    requires
        rotated@[0] == tri@[1],
        rotated@[1] == tri@[2],
        rotated@[2] == tri@[0],
    ensures
        l.hits_tri(tri) == l.hits_tri(rotated),
{
    lemma_rotation_identities(l.origin@, l.direction@, tri@[0]@, tri@[1]@, tri@[2]@);
}

/// Relabelling by an odd permutation (swapping the last two vertices)
/// reverses the winding: the determinant changes sign, so a ray never hits
/// both a triangle and its mirror labelling.
pub proof fn lemma_odd_relabel_flips_winding(l: Line, tri: [IVec3; 3], swapped: [IVec3; 3])
    requires
        swapped@[0] == tri@[0],
        swapped@[1] == tri@[2],
        swapped@[2] == tri@[1],
    ensures
        det_of(l.direction@, swapped@[0]@, swapped@[1]@, swapped@[2]@) == -det_of(
            l.direction@,
            tri@[0]@,
            tri@[1]@,
            tri@[2]@,
        ),
        !(l.hits_tri(tri) && l.hits_tri(swapped)),
{
    lemma_det_mirror(l.direction@, tri@[0]@, tri@[1]@, tri@[2]@);
}

/// A ray parallel to the triangle's plane (its direction orthogonal to the
/// normal `(b - a) × (c - a)`) never hits the triangle.
pub proof fn lemma_parallel_never_hits(l: Line, tri: [IVec3; 3])
    requires
        dot(l.direction@, cross(vsub(tri@[1]@, tri@[0]@), vsub(tri@[2]@, tri@[0]@))) == 0,
    ensures
        det_of(l.direction@, tri@[0]@, tri@[1]@, tri@[2]@) == 0,
        !l.hits_tri(tri),
{
    let (d, a, b, c) = (l.direction@, tri@[0]@, tri@[1]@, tri@[2]@);
    let (e1, e2) = (vsub(b, a), vsub(c, a));
    lemma_triple_swap(e1, d, e2);
    lemma_triple_cyclic(d, e1, e2);
}

/// The ray passes through the centroid of `a b c`: at the parameter `k / m`,
/// `3·m·o + 3·k·d == m·(a + b + c)`.
pub open spec fn through_centroid(o: V3, d: V3, a: V3, b: V3, c: V3, k: int, m: int) -> bool {
    &&& m > 0
    &&& vadd(scale(3 * m, o), scale(3 * k, d)) == scale(m, vadd(vadd(a, b), c))
}

proof fn lemma_centroid_coords(o: V3, d: V3, a: V3, b: V3, c: V3, k: int, m: int)
    requires
        through_centroid(o, d, a, b, c, k, m),
    ensures
        3 * u_of(o, d, a, b, c) == det_of(d, a, b, c),
        3 * v_of(o, d, a, b, c) == det_of(d, a, b, c),
{
    let e1 = vsub(b, a);
    let e2 = vsub(c, a);
    let tv = vsub(o, a);
    let det = det_of(d, a, b, c);
    // 3·m·(o - a) == m·(e1 + e2) - 3·k·d, coordinate by coordinate.
    let w = vsub(scale(m, vadd(e1, e2)), scale(3 * k, d));
    assert(scale(3 * m, tv) == w) by {
        assert(3 * m * o.x + 3 * k * d.x == m * (a.x + b.x + c.x));
        assert(3 * m * o.y + 3 * k * d.y == m * (a.y + b.y + c.y));
        assert(3 * m * o.z + 3 * k * d.z == m * (a.z + b.z + c.z));
        assert(3 * m * (o.x - a.x) == m * ((b.x - a.x) + (c.x - a.x)) - 3 * k * d.x) by (nonlinear_arith)
            requires
                3 * m * o.x + 3 * k * d.x == m * (a.x + b.x + c.x),
        ;
        assert(3 * m * (o.y - a.y) == m * ((b.y - a.y) + (c.y - a.y)) - 3 * k * d.y) by (nonlinear_arith)
            requires
                3 * m * o.y + 3 * k * d.y == m * (a.y + b.y + c.y),
        ;
        assert(3 * m * (o.z - a.z) == m * ((b.z - a.z) + (c.z - a.z)) - 3 * k * d.z) by (nonlinear_arith)
            requires
                3 * m * o.z + 3 * k * d.z == m * (a.z + b.z + c.z),
        ;
    }
    // u: dot both sides with p = d × e2.
    let p = cross(d, e2);
    let u = dot(tv, p);
    lemma_dot_scale_left(3 * m, tv, p);
    lemma_dot_sub_left(scale(m, vadd(e1, e2)), scale(3 * k, d), p);
    lemma_dot_scale_left(m, vadd(e1, e2), p);
    lemma_dot_add_left(e1, e2, p);
    lemma_dot_scale_left(3 * k, d, p);
    lemma_triple_repeat(e2, d);
    lemma_triple_repeat(d, e2);
    assert(dot(e2, p) == 0 && dot(d, p) == 0);
    assert((3 * m) * u == m * det);
    assert(3 * u == det) by (nonlinear_arith)
        requires
            (3 * m) * u == m * det,
            m > 0,
    ;
    // v: it is tv · (e1 × d); dot both sides with x = e1 × d.
    let x = cross(e1, d);
    let v = dot(tv, x);
    lemma_triple_cyclic(d, tv, e1);
    assert(v_of(o, d, a, b, c) == v);
    lemma_dot_scale_left(3 * m, tv, x);
    lemma_dot_sub_left(scale(m, vadd(e1, e2)), scale(3 * k, d), x);
    lemma_dot_scale_left(m, vadd(e1, e2), x);
    lemma_dot_add_left(e1, e2, x);
    lemma_dot_scale_left(3 * k, d, x);
    lemma_triple_repeat(e1, d);
    lemma_triple_repeat(d, e1);
    lemma_triple_cyclic(e2, e1, d);
    assert(dot(e1, x) == 0 && dot(d, x) == 0 && dot(e2, x) == det);
    assert((3 * m) * v == m * det);
    assert(3 * v == det) by (nonlinear_arith)
        requires
            (3 * m) * v == m * det,
            m > 0,
    ;
}

/// A ray that passes exactly through a triangle's centroid (`u = v = 1/3`)
/// hits it whenever the triangle faces the ray (its determinant reaches
/// the threshold).
pub proof fn lemma_centroid_hits(l: Line, tri: [IVec3; 3], k: int, m: int)
    requires
        through_centroid(l.origin@, l.direction@, tri@[0]@, tri@[1]@, tri@[2]@, k, m),
        det_of(l.direction@, tri@[0]@, tri@[1]@, tri@[2]@) >= DET_EPSILON,
    ensures
        l.hits_tri(tri),
{
    lemma_centroid_coords(l.origin@, l.direction@, tri@[0]@, tri@[1]@, tri@[2]@, k, m);
}

} // verus!
