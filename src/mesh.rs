//! Triangle meshes and the extraction of their triangles.
use vstd::prelude::*;

use crate::line::Line;
use crate::vec3::IVec3;

verus! {

/// How a mesh's vertices are assembled into primitives.
#[derive(Clone, Copy, Debug, PartialEq, Eq, Structural)]
pub enum Topology {
    PointList,
    LineList,
    LineStrip,
    TriangleList,
    TriangleStrip,
}

/// An unsigned index type that widens to `usize` without loss.
pub trait IntoUsize: Copy {
    spec fn index_value(self) -> nat;

    fn into_usize(self) -> (r: usize)
        ensures
            r as nat == self.index_value(),
    ;
}

impl IntoUsize for u16 {
    open spec fn index_value(self) -> nat {
        self as nat
    }

    fn into_usize(self) -> (r: usize) {
        self as usize
    }
}

impl IntoUsize for u32 {
    open spec fn index_value(self) -> nat {
        self as nat
    }

    fn into_usize(self) -> (r: usize) {
        self as usize
    }
}

/// An index buffer, narrow or wide.
#[derive(Clone, Debug)]
pub enum Indices {
    U16(Vec<u16>),
    U32(Vec<u32>),
}

impl Indices {
    /// The indices as natural numbers.
    pub open spec fn values(self) -> Seq<nat> {
        match self {
            Indices::U16(v) => v@.map_values(|x: u16| x.index_value()),
            Indices::U32(v) => v@.map_values(|x: u32| x.index_value()),
        }
    }

    pub fn len(&self) -> (r: usize)
        ensures
            r == self.values().len(),
    {
        match self {
            Indices::U16(v) => v.len(),
            Indices::U32(v) => v.len(),
        }
    }

    pub fn get(&self, k: usize) -> (r: usize)
        requires
            k < self.values().len(),
        ensures
            r == self.values()[k as int],
    {
        match self {
            Indices::U16(v) => v[k].into_usize(),
            Indices::U32(v) => v[k].into_usize(),
        }
    }
}

/// Mesh geometry: vertex positions in mesh-local space and an optional
/// index buffer.
#[derive(Clone, Debug)]
pub struct MeshData {
    pub topology: Topology,
    pub positions: Vec<IVec3>,
    pub indices: Option<Indices>,
}

impl MeshData {
    /// The number of vertex slots that make up triangles: the index count,
    /// or the position count where there are no indices.
    pub open spec fn slot_count(self) -> nat {
        match self.indices {
            Some(ind) => ind.values().len(),
            None => self.positions@.len(),
        }
    }

    /// Every index names a position, and the slots form whole triangles.
    pub open spec fn wf(self) -> bool {
        &&& self.slot_count() % 3 == 0
        &&& self.indices matches Some(ind) ==> forall|k: int|
            0 <= k < ind.values().len() ==> ind.values()[k] < self.positions@.len()
    }

    pub open spec fn tri_count(self) -> nat {
        self.slot_count() / 3
    }

    /// The position in slot `k`.
    pub open spec fn vertex_at(self, k: int) -> IVec3 {
        match self.indices {
            Some(ind) => self.positions@[ind.values()[k] as int],
            None => self.positions@[k],
        }
    }

    /// Triangle `i`: the positions in slots `3i`, `3i + 1`, `3i + 2`.
    pub open spec fn tri_at(self, i: int) -> Seq<IVec3> {
        seq![self.vertex_at(3 * i), self.vertex_at(3 * i + 1), self.vertex_at(3 * i + 2)]
    }

    /// Some triangle of the mesh is hit by `line`.
    pub open spec fn hit_by(self, line: Line) -> bool {
        exists|i: int| 0 <= i < self.tri_count() && #[trigger] line.hits_seq(self.tri_at(i))
    }

    /// Tests `wf`: whole triangles, and every index names a position.
    pub fn is_well_formed(&self) -> (r: bool)
        ensures
            r == self.wf(),
    {
        if self.slot_len() % 3 != 0 {
            return false;
        }
        match &self.indices {
            None => true,
            Some(ind) => {
                let n = ind.len();
                let mut k: usize = 0;
                while k < n
                    invariant
                        self.indices == Some(*ind),
                        n == ind.values().len(),
                        k <= n,
                        forall|j: int| 0 <= j < k ==> ind.values()[j] < self.positions@.len(),
                    decreases n - k,
                {
                    if ind.get(k) >= self.positions.len() {
                        assert(!(ind.values()[k as int] < self.positions@.len()));
                        return false;
                    }
                    k = k + 1;
                }
                true
            },
        }
    }

    pub fn triangle_count(&self) -> (r: usize)
        ensures
            r == self.tri_count(),
    {
        self.slot_len() / 3
    }

    fn slot_len(&self) -> (r: usize)
        ensures
            r == self.slot_count(),
    {
        match &self.indices {
            Some(ind) => ind.len(),
            None => self.positions.len(),
        }
    }

    fn vertex(&self, k: usize) -> (r: IVec3)
        requires
            self.wf(),
            k < self.slot_count(),
        ensures
            r == self.vertex_at(k as int),
    {
        match &self.indices {
            Some(ind) => self.positions[ind.get(k)],
            None => self.positions[k],
        }
    }

    /// The vertices of triangle `i`.
    pub fn triangle_at(&self, i: usize) -> (r: [IVec3; 3])
        requires
            self.wf(),
            i < self.tri_count(),
        ensures
            r@ == self.tri_at(i as int),
    {
        let slots = self.slot_len();
        let a = self.vertex(3 * i);
        let b = self.vertex(3 * i + 1);
        let c = self.vertex(3 * i + 2);
        let r = [a, b, c];
        assert(r@ =~= self.tri_at(i as int));
        r
    }

    /// All triangles, in order: one for each three slots.
    pub fn triangles(&self) -> (r: Vec<[IVec3; 3]>)
        requires
            self.wf(),
        ensures
            r.len() == self.tri_count(),
            forall|i: int| 0 <= i < r.len() ==> (#[trigger] r@[i])@ == self.tri_at(i),
    {
        let n = self.triangle_count();
        let mut r: Vec<[IVec3; 3]> = Vec::new();
        let mut i: usize = 0;
        while i < n
            invariant
                self.wf(),
                n == self.tri_count(),
                i <= n,
                r.len() == i,
                forall|j: int| 0 <= j < i ==> (#[trigger] r@[j])@ == self.tri_at(j),
            decreases n - i,
        {
            r.push(self.triangle_at(i));
            i = i + 1;
        }
        r
    }

    /// Tests `line` against the triangles in order and stops at the first hit.
    pub fn intersects(&self, line: &Line) -> (r: bool)
        requires
            self.wf(),
        ensures
            r == self.hit_by(*line),
    {
        let n = self.triangle_count();
        let mut i: usize = 0;
        while i < n
            invariant
                self.wf(),
                n == self.tri_count(),
                i <= n,
                forall|j: int| 0 <= j < i ==> !(#[trigger] line.hits_seq(self.tri_at(j))),
            decreases n - i,
        {
            let tri = self.triangle_at(i);
            if line.intersect_tri(&tri).is_some() {
                return true;
            }
            i = i + 1;
        }
        false
    }
}

/// Extraction over `N` slots yields `N / 3` triangles, and every vertex of
/// every triangle is one of the mesh's positions; without indices,
/// triangle `i` is the consecutive triple at `3i`.
pub proof fn lemma_triangles_are_positions(m: MeshData)
    requires
        m.wf(),
    ensures
        3 * m.tri_count() == m.slot_count(),
        forall|i: int, k: int|
            0 <= i < m.tri_count() && 0 <= k < 3 ==> m.positions@.contains(#[trigger] m.tri_at(i)[k]),
        m.indices is None ==> forall|i: int|
            0 <= i < m.tri_count() ==> #[trigger] m.tri_at(i) == m.positions@.subrange(3 * i, 3 * i + 3),
{
    assert forall|i: int, k: int|
        0 <= i < m.tri_count() && 0 <= k < 3 implies m.positions@.contains(#[trigger] m.tri_at(i)[k]) by {
        let slot = 3 * i + k;
        assert(m.tri_at(i)[k] == m.vertex_at(slot));
        match m.indices {
            Some(ind) => {
                let p = ind.values()[slot] as int;
                assert(m.positions@[p] == m.vertex_at(slot));
            },
            None => {
                assert(m.positions@[slot] == m.vertex_at(slot));
            },
        }
    }
    if m.indices is None {
        assert forall|i: int| 0 <= i < m.tri_count() implies #[trigger] m.tri_at(i)
            == m.positions@.subrange(3 * i, 3 * i + 3) by {
            assert(m.tri_at(i) =~= m.positions@.subrange(3 * i, 3 * i + 3));
        }
    }
}

} // verus!
