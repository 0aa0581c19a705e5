//! Rays, affine maps, and the one-sided Möller–Trumbore triangle test.
use vstd::prelude::*;

use crate::mesh::{MeshData, Topology};
use crate::vec3::{
    cross, cross_exact, dot, dot_exact, fits_i32, scale, sub_exact, to_ivec3, vadd, vsub, IVec3, V3,
};

verus! {

/// The determinant threshold: a triangle whose determinant is below it is
/// back-facing or parallel to the ray, and is never hit.
pub const DET_EPSILON: i128 = 1;

/// A ray: an origin and a direction (not normalized).
#[derive(Clone, Copy, Debug, PartialEq, Eq, Structural)]
pub struct Line {
    pub origin: IVec3,
    pub direction: IVec3,
}

/// An affine map `p ↦ x_axis·p.x + y_axis·p.y + z_axis·p.z + translation`.
#[derive(Clone, Copy, Debug, PartialEq, Eq, Structural)]
pub struct Affine3 {
    pub x_axis: IVec3,
    pub y_axis: IVec3,
    pub z_axis: IVec3,
    pub translation: IVec3,
}

/// What the test learns of a hit: the barycentric coordinates `u / det`,
/// `v / det` and the ray parameter `t / det`, each kept as its numerator.
#[derive(Clone, Copy, Debug, PartialEq, Eq, Structural)]
pub struct TriHit {
    pub u: i128,
    pub v: i128,
    pub t: i128,
    pub det: i128,
}

/// The linear part of `m` applied to `p`.
pub open spec fn linear_of(m: Affine3, p: V3) -> V3 {
    vadd(vadd(scale(p.x, m.x_axis@), scale(p.y, m.y_axis@)), scale(p.z, m.z_axis@))
}

pub open spec fn point_of(m: Affine3, p: V3) -> V3 {
    vadd(linear_of(m, p), m.translation@)
}

/// The determinant `e1 · (d × e2)` of ray direction `d` against triangle `a b c`.
pub open spec fn det_of(d: V3, a: V3, b: V3, c: V3) -> int {
    dot(vsub(b, a), cross(d, vsub(c, a)))
}

/// The first barycentric coordinate, scaled by the determinant.
pub open spec fn u_of(o: V3, d: V3, a: V3, b: V3, c: V3) -> int {
    dot(vsub(o, a), cross(d, vsub(c, a)))
}

/// The second barycentric coordinate, scaled by the determinant.
pub open spec fn v_of(o: V3, d: V3, a: V3, b: V3, c: V3) -> int {
    dot(d, cross(vsub(o, a), vsub(b, a)))
}

/// The ray parameter of the crossing point, scaled by the determinant.
pub open spec fn t_of(o: V3, d: V3, a: V3, b: V3, c: V3) -> int {
    dot(vsub(c, a), cross(vsub(o, a), vsub(b, a)))
}

/// The ray `o + t·d` crosses the front face of triangle `a b c`: the
/// determinant reaches the threshold and `u, v ≥ 0`, `u + v ≤ 1`.
pub open spec fn hits(o: V3, d: V3, a: V3, b: V3, c: V3) -> bool {
    let det = det_of(d, a, b, c);
    let u = u_of(o, d, a, b, c);
    let v = v_of(o, d, a, b, c);
    &&& det >= DET_EPSILON
    &&& 0 <= u <= det
    &&& 0 <= v
    &&& u + v <= det
}

impl Line {
    pub open spec fn hits_seq(self, tri: Seq<IVec3>) -> bool {
        hits(self.origin@, self.direction@, tri[0]@, tri[1]@, tri[2]@)
    }

    pub open spec fn hits_tri(self, tri: [IVec3; 3]) -> bool {
        self.hits_seq(tri@)
    }

    /// The map `m` keeps both the mapped origin and direction within `i32`.
    pub open spec fn fits(self, m: Affine3) -> bool {
        fits_i32(point_of(m, self.origin@)) && fits_i32(linear_of(m, self.direction@))
    }

    pub open spec fn transformed(self, m: Affine3) -> Line {
        Line {
            origin: to_ivec3(point_of(m, self.origin@)),
            direction: to_ivec3(linear_of(m, self.direction@)),
        }
    }

    /// The point at parameter `s`: `origin + s·direction`.
    pub open spec fn point_at(self, s: int) -> V3 {
        vadd(self.origin@, scale(s, self.direction@))
    }

    /// The point at parameter `s`, where it is representable.
    pub fn checked_point_at(&self, s: i32) -> (r: Option<IVec3>)
        ensures
            r is Some <==> fits_i32(self.point_at(s as int)),
            r matches Some(p) ==> p@ == self.point_at(s as int),
    {
        proof {
            lemma_mul_i32(s as int, self.direction.x as int);
            lemma_mul_i32(s as int, self.direction.y as int);
            lemma_mul_i32(s as int, self.direction.z as int);
        }
        let x = self.origin.x as i128 + s as i128 * self.direction.x as i128;
        let y = self.origin.y as i128 + s as i128 * self.direction.y as i128;
        let z = self.origin.z as i128 + s as i128 * self.direction.z as i128;
        let lo = i32::MIN as i128;
        let hi = i32::MAX as i128;
        if lo <= x && x <= hi && lo <= y && y <= hi && lo <= z && z <= hi {
            Some(IVec3 { x: x as i32, y: y as i32, z: z as i32 })
        } else {
            None
        }
    }

    /// A two-vertex line-list mesh along the ray from parameter `start` to
    /// `end`, for drawing it; `None` where an end is not representable.
    pub fn line_mesh(&self, start: i32, end: i32) -> (r: Option<MeshData>)
        ensures
            r is Some <==> fits_i32(self.point_at(start as int)) && fits_i32(self.point_at(end as int)),
            r matches Some(m) ==> {
                &&& m.topology == Topology::LineList
                &&& m.indices is None
                &&& m.positions@.len() == 2
                &&& m.positions@[0]@ == self.point_at(start as int)
                &&& m.positions@[1]@ == self.point_at(end as int)
            },
    {
        let line_start = self.checked_point_at(start);
        let line_end = self.checked_point_at(end);
        match (line_start, line_end) {
            (Some(a), Some(b)) => {
                let positions = vec![a, b];
                Some(MeshData { topology: Topology::LineList, positions, indices: None })
            },
            _ => None,
        }
    }

    /// Ray-versus-plane intersection is not supported yet: always `None`.
    pub fn intersect_plane() -> (r: Option<bool>)
        ensures
            r is None,
    {
        None
    }

    pub fn new(origin: IVec3, direction: IVec3) -> (r: Line)
        ensures
            r.origin == origin && r.direction == direction,
    {
        Line { origin, direction }
    }

    /// Tests `fits`: whether `transform` can be applied to this ray.
    pub fn fits_transform(&self, transform: &Affine3) -> (r: bool)
        ensures
            r == self.fits(*transform),
    {
        let o = try_apply(transform, &self.origin, true);
        let d = try_apply(transform, &self.direction, false);
        o && d
    }

    /// Maps the origin as a point and the direction as a vector.
    pub fn transform(&self, transform: Affine3) -> (r: Line)
        requires
            self.fits(transform),
        ensures
            r == self.transformed(transform),
            r.origin@ == point_of(transform, self.origin@),
            r.direction@ == linear_of(transform, self.direction@),
    {
        let o = apply(&transform, &self.origin, true);
        let d = apply(&transform, &self.direction, false);
        Line { origin: o, direction: d }
    }

    /// Tests the ray against the front face of `tri`; on a hit, returns the
    /// barycentric coordinates and the ray parameter, scaled by the determinant.
    pub fn intersect_tri(&self, tri: &[IVec3; 3]) -> (r: Option<TriHit>)
        ensures
            r.is_some() == self.hits_tri(*tri),
            r matches Some(h) ==> {
                let (o, d, a, b, c) = (self.origin@, self.direction@, tri@[0]@, tri@[1]@, tri@[2]@);
                &&& h.det == det_of(d, a, b, c)
                &&& h.u == u_of(o, d, a, b, c)
                &&& h.v == v_of(o, d, a, b, c)
                &&& h.t == t_of(o, d, a, b, c)
            },
    {
        let v0 = &tri[0];
        let v1 = &tri[1];
        let v2 = &tri[2];
        let dir = self.direction.widen();
        let e1 = sub_exact(v1, v0);
        let e2 = sub_exact(v2, v0);
        let p = cross_exact(&dir, &e2);
        let det = dot_exact(&e1, &p);
        if det < DET_EPSILON {
            return None;
        }
        let t_vec = sub_exact(&self.origin, v0);
        let u = dot_exact(&t_vec, &p);
        if u < 0 || u > det {
            return None;
        }
        let q = cross_exact(&t_vec, &e1);
        let v = dot_exact(&dir, &q);
        if v < 0 || u + v > det {
            return None;
        }
        let t = dot_exact(&e2, &q);
        Some(TriHit { u, v, t, det })
    }
}

proof fn lemma_mul_i32(a: int, b: int)
    requires
        i32::MIN <= a <= i32::MAX,
        i32::MIN <= b <= i32::MAX,
    ensures
        -0x4000_0000_0000_0000 <= a * b <= 0x4000_0000_0000_0000,
{
    assert(-0x4000_0000_0000_0000 <= a * b <= 0x4000_0000_0000_0000) by (nonlinear_arith)
        requires
            i32::MIN <= a <= i32::MAX,
            i32::MIN <= b <= i32::MAX,
    ;
}

/// One coordinate of `m` applied to `p`, from the three axis coordinates.
fn apply_coord(ax: i32, ay: i32, az: i32, t: i32, p: &IVec3, point: bool) -> (r: i128)
    ensures
        r == ax * p.x + ay * p.y + az * p.z + (if point { t as int } else { 0 }),
{
    proof {
        lemma_mul_i32(ax as int, p.x as int);
        lemma_mul_i32(ay as int, p.y as int);
        lemma_mul_i32(az as int, p.z as int);
    }
    let s = ax as i128 * p.x as i128 + ay as i128 * p.y as i128 + az as i128 * p.z as i128;
    if point {
        s + t as i128
    } else {
        s
    }
}

fn try_apply(m: &Affine3, p: &IVec3, point: bool) -> (r: bool)
    ensures
        point ==> r == fits_i32(point_of(*m, p@)),
        !point ==> r == fits_i32(linear_of(*m, p@)),
{
    let x = apply_coord(m.x_axis.x, m.y_axis.x, m.z_axis.x, m.translation.x, p, point);
    let y = apply_coord(m.x_axis.y, m.y_axis.y, m.z_axis.y, m.translation.y, p, point);
    let z = apply_coord(m.x_axis.z, m.y_axis.z, m.z_axis.z, m.translation.z, p, point);
    proof {
        assert(linear_of(*m, p@).x == m.x_axis.x * p.x + m.y_axis.x * p.y + m.z_axis.x * p.z) by (nonlinear_arith);
        assert(linear_of(*m, p@).y == m.x_axis.y * p.x + m.y_axis.y * p.y + m.z_axis.y * p.z) by (nonlinear_arith);
        assert(linear_of(*m, p@).z == m.x_axis.z * p.x + m.y_axis.z * p.y + m.z_axis.z * p.z) by (nonlinear_arith);
    }
    let lo = i32::MIN as i128;
    let hi = i32::MAX as i128;
    lo <= x && x <= hi && lo <= y && y <= hi && lo <= z && z <= hi
}

fn apply(m: &Affine3, p: &IVec3, point: bool) -> (r: IVec3)
    requires
        point ==> fits_i32(point_of(*m, p@)),
        !point ==> fits_i32(linear_of(*m, p@)),
    ensures
        point ==> r@ == point_of(*m, p@),
        !point ==> r@ == linear_of(*m, p@),
{
    let x = apply_coord(m.x_axis.x, m.y_axis.x, m.z_axis.x, m.translation.x, p, point);
    let y = apply_coord(m.x_axis.y, m.y_axis.y, m.z_axis.y, m.translation.y, p, point);
    let z = apply_coord(m.x_axis.z, m.y_axis.z, m.z_axis.z, m.translation.z, p, point);
    proof {
        assert(linear_of(*m, p@).x == m.x_axis.x * p.x + m.y_axis.x * p.y + m.z_axis.x * p.z) by (nonlinear_arith);
        assert(linear_of(*m, p@).y == m.x_axis.y * p.x + m.y_axis.y * p.y + m.z_axis.y * p.z) by (nonlinear_arith);
        assert(linear_of(*m, p@).z == m.x_axis.z * p.x + m.y_axis.z * p.y + m.z_axis.z * p.z) by (nonlinear_arith);
    }
    IVec3 { x: x as i32, y: y as i32, z: z as i32 }
}

} // verus!
