//! Integer 3D vectors in fixed-point units, and their exact algebra.
use vstd::prelude::*;

verus! {

/// A point or a vector with integer (fixed-point) coordinates.
#[derive(Clone, Copy, Debug, PartialEq, Eq, Structural)]
pub struct IVec3 {
    pub x: i32,
    pub y: i32,
    pub z: i32,
}

/// A vector of mathematical integers: the model of every vector in this crate.
pub struct V3 {
    pub x: int,
    pub y: int,
    pub z: int,
}

impl View for IVec3 {
    type V = V3;

    open spec fn view(&self) -> V3 {
        V3 { x: self.x as int, y: self.y as int, z: self.z as int }
    }
}

pub open spec fn v3(x: int, y: int, z: int) -> V3 {
    V3 { x, y, z }
}

pub open spec fn vadd(a: V3, b: V3) -> V3 {
    v3(a.x + b.x, a.y + b.y, a.z + b.z)
}

pub open spec fn vsub(a: V3, b: V3) -> V3 {
    v3(a.x - b.x, a.y - b.y, a.z - b.z)
}

pub open spec fn scale(k: int, a: V3) -> V3 {
    v3(k * a.x, k * a.y, k * a.z)
}

pub open spec fn neg(a: V3) -> V3 {
    v3(-a.x, -a.y, -a.z)
}

pub open spec fn dot(a: V3, b: V3) -> int {
    a.x * b.x + a.y * b.y + a.z * b.z
}

pub open spec fn cross(a: V3, b: V3) -> V3 {
    v3(a.y * b.z - a.z * b.y, a.z * b.x - a.x * b.z, a.x * b.y - a.y * b.x)
}

/// Every coordinate lies in `[-k, k]`.
pub open spec fn bounded(a: V3, k: int) -> bool {
    -k <= a.x <= k && -k <= a.y <= k && -k <= a.z <= k
}

/// Every coordinate is representable as an `i32`.
pub open spec fn fits_i32(a: V3) -> bool {
    i32::MIN <= a.x <= i32::MAX && i32::MIN <= a.y <= i32::MAX && i32::MIN <= a.z <= i32::MAX
}

pub open spec fn to_ivec3(a: V3) -> IVec3
    recommends
        fits_i32(a),
{
    IVec3 { x: a.x as i32, y: a.y as i32, z: a.z as i32 }
}

/// The bound on a difference of two `i32` vectors.
pub const DIFF_BOUND: i128 = 0x1_0000_0000;

/// The bound on a cross product of two vectors under `DIFF_BOUND`.
pub const CROSS_BOUND: i128 = 0x2_0000_0000_0000_0000;

/// A vector held exactly in wide integers: the intermediate values of the
/// intersection test.
#[derive(Clone, Copy)]
pub struct Wide3 {
    pub x: i128,
    pub y: i128,
    pub z: i128,
}

impl View for Wide3 {
    type V = V3;

    open spec fn view(&self) -> V3 {
        V3 { x: self.x as int, y: self.y as int, z: self.z as int }
    }
}

impl IVec3 {
    pub fn new(x: i32, y: i32, z: i32) -> (r: IVec3)
        ensures
            r.x == x && r.y == y && r.z == z,
    {
        IVec3 { x, y, z }
    }

    /// The vector widened without loss.
    pub fn widen(&self) -> (r: Wide3)
        ensures
            r@ == self@,
            bounded(r@, DIFF_BOUND as int),
    {
        Wide3 { x: self.x as i128, y: self.y as i128, z: self.z as i128 }
    }
}

proof fn lemma_mul_bounded(a: int, b: int, ka: int, kb: int)
    requires
        0 <= ka,
        0 <= kb,
        -ka <= a <= ka,
        -kb <= b <= kb,
    ensures
        -(ka * kb) <= a * b <= ka * kb,
{
    assert(-(ka * kb) <= a * b <= ka * kb) by (nonlinear_arith)
        requires
            0 <= ka,
            0 <= kb,
            -ka <= a <= ka,
            -kb <= b <= kb,
    ;
}

/// `a - b`, exactly.
pub fn sub_exact(a: &IVec3, b: &IVec3) -> (r: Wide3)
    ensures
        r@ == vsub(a@, b@),
        bounded(r@, DIFF_BOUND as int),
{
    Wide3 {
        x: a.x as i128 - b.x as i128,
        y: a.y as i128 - b.y as i128,
        z: a.z as i128 - b.z as i128,
    }
}

/// `a × b`, exactly, for vectors under `DIFF_BOUND`.
pub fn cross_exact(a: &Wide3, b: &Wide3) -> (r: Wide3)
    requires
        bounded(a@, DIFF_BOUND as int),
        bounded(b@, DIFF_BOUND as int),
    ensures
        r@ == cross(a@, b@),
        bounded(r@, CROSS_BOUND as int),
{
    proof {
        let k = DIFF_BOUND as int;
        lemma_mul_bounded(a.y as int, b.z as int, k, k);
        lemma_mul_bounded(a.z as int, b.y as int, k, k);
        lemma_mul_bounded(a.z as int, b.x as int, k, k);
        lemma_mul_bounded(a.x as int, b.z as int, k, k);
        lemma_mul_bounded(a.x as int, b.y as int, k, k);
        lemma_mul_bounded(a.y as int, b.x as int, k, k);
    }
    Wide3 {
        x: a.y * b.z - a.z * b.y,
        y: a.z * b.x - a.x * b.z,
        z: a.x * b.y - a.y * b.x,
    }
}

/// `a · b`, exactly, for `a` under `DIFF_BOUND` and `b` under `CROSS_BOUND`.
pub fn dot_exact(a: &Wide3, b: &Wide3) -> (r: i128)
    requires
        bounded(a@, DIFF_BOUND as int),
        bounded(b@, CROSS_BOUND as int),
    ensures
        r == dot(a@, b@),
        -3 * DIFF_BOUND * CROSS_BOUND <= r <= 3 * DIFF_BOUND * CROSS_BOUND,
{
    proof {
        let ka = DIFF_BOUND as int;
        let kb = CROSS_BOUND as int;
        lemma_mul_bounded(a.x as int, b.x as int, ka, kb);
        lemma_mul_bounded(a.y as int, b.y as int, ka, kb);
        lemma_mul_bounded(a.z as int, b.z as int, ka, kb);
    }
    a.x * b.x + a.y * b.y + a.z * b.z
}

} // verus!
