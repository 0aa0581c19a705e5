//! Vector algebra over the integer model: linearity of `dot` and `cross`,
//! and the symmetries of the triple product.
use vstd::prelude::*;

use crate::vec3::{cross, dot, neg, scale, v3, vadd, vsub, V3};

verus! {

/// The triple product `x · (y × z)`.
pub open spec fn triple(x: V3, y: V3, z: V3) -> int {
    dot(x, cross(y, z))
}

/// The triple product written out as six monomials.
pub open spec fn triple_terms(x: V3, y: V3, z: V3) -> int {
    x.x * y.y * z.z - x.x * y.z * z.y + x.y * y.z * z.x - x.y * y.x * z.z + x.z * y.x * z.y - x.z
        * y.y * z.x
}

pub proof fn lemma_triple_terms(x: V3, y: V3, z: V3)
    ensures
        triple(x, y, z) == triple_terms(x, y, z),
{
    assert(x.x * (y.y * z.z - y.z * z.y) == x.x * y.y * z.z - x.x * y.z * z.y) by (nonlinear_arith);
    assert(x.y * (y.z * z.x - y.x * z.z) == x.y * y.z * z.x - x.y * y.x * z.z) by (nonlinear_arith);
    assert(x.z * (y.x * z.y - y.y * z.x) == x.z * y.x * z.y - x.z * y.y * z.x) by (nonlinear_arith);
}

pub proof fn lemma_triple_cyclic(x: V3, y: V3, z: V3)
    ensures
        triple(x, y, z) == triple(y, z, x),
{
    lemma_triple_terms(x, y, z);
    lemma_triple_terms(y, z, x);
    let (a, b, c, d, e, f, g, h, i) = (x.x, x.y, x.z, y.x, y.y, y.z, z.x, z.y, z.z);
    assert(d * h * c == c * d * h) by (nonlinear_arith);
    assert(d * i * b == b * d * i) by (nonlinear_arith);
    assert(e * i * a == a * e * i) by (nonlinear_arith);
    assert(e * g * c == c * e * g) by (nonlinear_arith);
    assert(f * g * b == b * f * g) by (nonlinear_arith);
    assert(f * h * a == a * f * h) by (nonlinear_arith);
}

pub proof fn lemma_cross_anti(y: V3, z: V3)
    ensures
        cross(y, z) == neg(cross(z, y)),
{
    assert(y.y * z.z - y.z * z.y == -(z.y * y.z - z.z * y.y)) by (nonlinear_arith);
    assert(y.z * z.x - y.x * z.z == -(z.z * y.x - z.x * y.z)) by (nonlinear_arith);
    assert(y.x * z.y - y.y * z.x == -(z.x * y.y - z.y * y.x)) by (nonlinear_arith);
}

pub proof fn lemma_cross_self(y: V3)
    ensures
        cross(y, y) == v3(0, 0, 0),
{
    assert(y.y * y.z - y.z * y.y == 0) by (nonlinear_arith);
    assert(y.z * y.x - y.x * y.z == 0) by (nonlinear_arith);
    assert(y.x * y.y - y.y * y.x == 0) by (nonlinear_arith);
}

pub proof fn lemma_dot_sub_left(a: V3, b: V3, w: V3)
    ensures
        dot(vsub(a, b), w) == dot(a, w) - dot(b, w),
{
    assert((a.x - b.x) * w.x == a.x * w.x - b.x * w.x) by (nonlinear_arith);
    assert((a.y - b.y) * w.y == a.y * w.y - b.y * w.y) by (nonlinear_arith);
    assert((a.z - b.z) * w.z == a.z * w.z - b.z * w.z) by (nonlinear_arith);
}

pub proof fn lemma_dot_sub_right(w: V3, a: V3, b: V3)
    ensures
        dot(w, vsub(a, b)) == dot(w, a) - dot(w, b),
{
    assert(w.x * (a.x - b.x) == w.x * a.x - w.x * b.x) by (nonlinear_arith);
    assert(w.y * (a.y - b.y) == w.y * a.y - w.y * b.y) by (nonlinear_arith);
    assert(w.z * (a.z - b.z) == w.z * a.z - w.z * b.z) by (nonlinear_arith);
}

pub proof fn lemma_dot_neg_right(w: V3, a: V3)
    ensures
        dot(w, neg(a)) == -dot(w, a),
{
    assert(w.x * (-a.x) == -(w.x * a.x)) by (nonlinear_arith);
    assert(w.y * (-a.y) == -(w.y * a.y)) by (nonlinear_arith);
    assert(w.z * (-a.z) == -(w.z * a.z)) by (nonlinear_arith);
}

pub proof fn lemma_dot_scale_left(k: int, a: V3, w: V3)
    ensures
        dot(scale(k, a), w) == k * dot(a, w),
{
    assert((k * a.x) * w.x == k * (a.x * w.x)) by (nonlinear_arith);
    assert((k * a.y) * w.y == k * (a.y * w.y)) by (nonlinear_arith);
    assert((k * a.z) * w.z == k * (a.z * w.z)) by (nonlinear_arith);
    let (p, q, r) = (a.x * w.x, a.y * w.y, a.z * w.z);
    assert(k * (p + q + r) == k * p + k * q + k * r) by (nonlinear_arith);
}

pub proof fn lemma_dot_add_left(a: V3, b: V3, w: V3)
    ensures
        dot(vadd(a, b), w) == dot(a, w) + dot(b, w),
{
    assert((a.x + b.x) * w.x == a.x * w.x + b.x * w.x) by (nonlinear_arith);
    assert((a.y + b.y) * w.y == a.y * w.y + b.y * w.y) by (nonlinear_arith);
    assert((a.z + b.z) * w.z == a.z * w.z + b.z * w.z) by (nonlinear_arith);
}

pub proof fn lemma_cross_sub_left(a: V3, b: V3, z: V3)
    ensures
        cross(vsub(a, b), z) == vsub(cross(a, z), cross(b, z)),
{
    assert((a.y - b.y) * z.z - (a.z - b.z) * z.y == (a.y * z.z - a.z * z.y) - (b.y * z.z - b.z * z.y))
        by (nonlinear_arith);
    assert((a.z - b.z) * z.x - (a.x - b.x) * z.z == (a.z * z.x - a.x * z.z) - (b.z * z.x - b.x * z.z))
        by (nonlinear_arith);
    assert((a.x - b.x) * z.y - (a.y - b.y) * z.x == (a.x * z.y - a.y * z.x) - (b.x * z.y - b.y * z.x))
        by (nonlinear_arith);
}

pub proof fn lemma_cross_sub_right(y: V3, a: V3, b: V3)
    ensures
        cross(y, vsub(a, b)) == vsub(cross(y, a), cross(y, b)),
{
    assert(y.y * (a.z - b.z) - y.z * (a.y - b.y) == (y.y * a.z - y.z * a.y) - (y.y * b.z - y.z * b.y))
        by (nonlinear_arith);
    assert(y.z * (a.x - b.x) - y.x * (a.z - b.z) == (y.z * a.x - y.x * a.z) - (y.z * b.x - y.x * b.z))
        by (nonlinear_arith);
    assert(y.x * (a.y - b.y) - y.y * (a.x - b.x) == (y.x * a.y - y.y * a.x) - (y.x * b.y - y.y * b.x))
        by (nonlinear_arith);
}

pub proof fn lemma_cross_neg_right(y: V3, a: V3)
    ensures
        cross(y, neg(a)) == neg(cross(y, a)),
{
    assert(y.y * (-a.z) - y.z * (-a.y) == -(y.y * a.z - y.z * a.y)) by (nonlinear_arith);
    assert(y.z * (-a.x) - y.x * (-a.z) == -(y.z * a.x - y.x * a.z)) by (nonlinear_arith);
    assert(y.x * (-a.y) - y.y * (-a.x) == -(y.x * a.y - y.y * a.x)) by (nonlinear_arith);
}

/// Swapping the last two factors negates the triple product.
pub proof fn lemma_triple_swap(x: V3, y: V3, z: V3)
    ensures
        triple(x, y, z) == -triple(x, z, y),
{
    lemma_cross_anti(y, z);
    lemma_dot_neg_right(x, cross(z, y));
}

/// A triple product with a repeated factor vanishes.
pub proof fn lemma_triple_repeat(x: V3, y: V3)
    ensures
        triple(x, y, x) == 0,
        triple(x, x, y) == 0,
{
    lemma_triple_cyclic(x, y, x);
    lemma_cross_self(x);
    lemma_triple_swap(x, x, y);
    lemma_triple_cyclic(x, y, x);
}

} // verus!
