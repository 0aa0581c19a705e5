//! Layer-tagged raycast requests, hit reports, and the dispatch pass.
use vstd::prelude::*;

use core::marker::PhantomData;

use crate::line::{Affine3, Line};
use crate::mesh::{MeshData, Topology};

verus! {

/// An entity of the host world, by id.
#[derive(Clone, Copy, Debug, PartialEq, Eq, Structural, Hash)]
pub struct Entity {
    pub id: u64,
}

/// Registration of one raycast layer: its event pair and its dispatch pass.
pub struct RayLayerPlugin<Layer>(pub PhantomData<Layer>);

impl<Layer> RayLayerPlugin<Layer> {
    pub fn new() -> Self {
        RayLayerPlugin(PhantomData)
    }
}

/// Marks an entity as a raycast target on `Layer`.
pub struct RayHitable<Layer>(pub PhantomData<Layer>);

impl<Layer> RayHitable<Layer> {
    pub fn new() -> Self {
        RayHitable(PhantomData)
    }
}

/// A request to cast `line` against every entity hittable on `Layer`.
pub struct FireRay<Layer> {
    pub line: Line,
    pub _m: PhantomData<Layer>,
}

impl<Layer> FireRay<Layer> {
    pub fn new(line: Line) -> (r: Self)
        ensures
            r.line == line,
    {
        FireRay { line, _m: PhantomData }
    }
}

/// A report that a ray fired on `Layer` hit `entity`.
pub struct RayHit<Layer> {
    pub entity: Entity,
    pub _m: PhantomData<Layer>,
}

/// What the dispatch pass reads of one entity hittable on `Layer`.
pub struct Candidate<Layer> {
    pub entity: Entity,
    /// The visibility flag set by hand.
    pub visible: bool,
    /// The visibility the renderer computed.
    pub computed_visible: bool,
    /// The handle of the entity's mesh in the mesh store.
    pub mesh: usize,
    /// The inverse of the entity's world transform.
    pub world_to_mesh: Affine3,
    pub hitable: RayHitable<Layer>,
}

/// The candidate is visible and its mesh exists and is a triangle list: its
/// triangles are tested.
pub open spec fn is_tested<Layer>(meshes: Seq<MeshData>, c: Candidate<Layer>) -> bool {
    &&& c.visible
    &&& c.computed_visible
    &&& c.mesh < meshes.len()
    &&& meshes[c.mesh as int].topology == Topology::TriangleList
}

/// `line`, moved into the candidate's mesh space, hits a triangle of its mesh.
pub open spec fn candidate_hit<Layer>(line: Line, meshes: Seq<MeshData>, c: Candidate<Layer>) -> bool {
    is_tested(meshes, c) && meshes[c.mesh as int].hit_by(line.transformed(c.world_to_mesh))
}

/// The entities that `line` hits, one each, in candidate order.
pub open spec fn hit_entities<Layer>(
    line: Line,
    meshes: Seq<MeshData>,
    cs: Seq<Candidate<Layer>>,
) -> Seq<Entity>
    decreases cs.len(),
{
    if cs.len() == 0 {
        seq![]
    } else {
        let rest = hit_entities(line, meshes, cs.drop_last());
        if candidate_hit(line, meshes, cs.last()) {
            rest.push(cs.last().entity)
        } else {
            rest
        }
    }
}

/// The entities hit by each ray in turn.
pub open spec fn fired_entities<Layer>(
    rays: Seq<FireRay<Layer>>,
    meshes: Seq<MeshData>,
    cs: Seq<Candidate<Layer>>,
) -> Seq<Entity>
    decreases rays.len(),
{
    if rays.len() == 0 {
        seq![]
    } else {
        fired_entities(rays.drop_last(), meshes, cs) + hit_entities(rays.last().line, meshes, cs)
    }
}

/// Every tested candidate has a well-formed mesh, and `line` moved into its
/// mesh space stays within `i32`.
pub open spec fn ready_for<Layer>(line: Line, meshes: Seq<MeshData>, cs: Seq<Candidate<Layer>>) -> bool {
    forall|k: int|
        0 <= k < cs.len() && #[trigger] is_tested(meshes, cs[k]) ==> meshes[cs[k].mesh as int].wf()
            && line.fits(cs[k].world_to_mesh)
}

pub open spec fn hit_view<Layer>(hits: Seq<RayHit<Layer>>) -> Seq<Entity> {
    hits.map_values(|h: RayHit<Layer>| h.entity)
}

/// Casts one ray against every candidate; appends one hit for each
/// candidate that it hits, in candidate order.
pub fn cast_ray<Layer>(
    line: &Line,
    meshes: &Vec<MeshData>,
    candidates: &Vec<Candidate<Layer>>,
    hits: &mut Vec<RayHit<Layer>>,
)
    requires
        ready_for(*line, meshes@, candidates@),
    ensures
        hit_view(final(hits)@) == hit_view(old(hits)@) + hit_entities(*line, meshes@, candidates@),
{
    let ghost start = hit_view(hits@);
    let mut k: usize = 0;
    while k < candidates.len()
        invariant
            ready_for(*line, meshes@, candidates@),
            k <= candidates.len(),
            hit_view(hits@) == start + hit_entities(*line, meshes@, candidates@.take(k as int)),
        decreases candidates.len() - k,
    {
        let c = &candidates[k];
        proof {
            assert(candidates@.take(k + 1).drop_last() =~= candidates@.take(k as int));
            assert(candidates@.take(k + 1).last() == *c);
        }
        let tested = c.visible && c.computed_visible && c.mesh < meshes.len()
            && meshes[c.mesh].topology == Topology::TriangleList;
        if tested {
            assert(is_tested(meshes@, candidates@[k as int]));
            let mesh = &meshes[c.mesh];
            let local = line.transform(c.world_to_mesh);
            if mesh.intersects(&local) {
                let ghost prev = hits@;
                hits.push(RayHit { entity: c.entity, _m: PhantomData });
                assert(hit_view(hits@) =~= hit_view(prev).push(c.entity));
                assert(hit_view(hits@) =~= start + hit_entities(*line, meshes@, candidates@.take(k + 1)));
            }
        }
        k = k + 1;
    }
    assert(candidates@.take(candidates.len() as int) =~= candidates@);
}

/// One dispatch pass: casts each ray in turn and reports, for each, one hit
/// per hittable, visible, triangle-list entity whose geometry it crosses.
pub fn fire_ray<Layer>(
    rays: &Vec<FireRay<Layer>>,
    meshes: &Vec<MeshData>,
    candidates: &Vec<Candidate<Layer>>,
) -> (r: Vec<RayHit<Layer>>)
    requires
        forall|i: int| 0 <= i < rays.len() ==> ready_for(#[trigger] rays@[i].line, meshes@, candidates@),
    ensures
        hit_view(r@) == fired_entities(rays@, meshes@, candidates@),
{
    let mut hits: Vec<RayHit<Layer>> = Vec::new();
    let mut i: usize = 0;
    while i < rays.len()
        invariant
            forall|j: int| 0 <= j < rays.len() ==> ready_for(#[trigger] rays@[j].line, meshes@, candidates@),
            i <= rays.len(),
            hit_view(hits@) == fired_entities(rays@.take(i as int), meshes@, candidates@),
        decreases rays.len() - i,
    {
        proof {
            assert(rays@.take(i + 1).drop_last() =~= rays@.take(i as int));
            assert(rays@.take(i + 1).last() == rays@[i as int]);
        }
        cast_ray(&rays[i].line, meshes, candidates, &mut hits);
        i = i + 1;
    }
    assert(rays@.take(rays.len() as int) =~= rays@);
    hits
}

/// No two candidates stand for the same entity.
pub open spec fn distinct_entities<Layer>(cs: Seq<Candidate<Layer>>) -> bool {
    forall|i: int, j: int| 0 <= i < j < cs.len() ==> cs[i].entity != cs[j].entity
}

/// For one ray, each candidate's entity is reported exactly when the ray,
/// moved into its mesh space, hits a triangle of its visible triangle-list
/// mesh; no entity is reported twice, and nothing else is reported.
pub proof fn lemma_hits_exactly_once<Layer>(line: Line, meshes: Seq<MeshData>, cs: Seq<Candidate<Layer>>)
    requires
        distinct_entities(cs),
    ensures
        hit_entities(line, meshes, cs).no_duplicates(),
        forall|k: int|
            0 <= k < cs.len() ==> (hit_entities(line, meshes, cs).contains(#[trigger] cs[k].entity)
                <==> candidate_hit(line, meshes, cs[k])),
        forall|e: Entity|
            #[trigger] hit_entities(line, meshes, cs).contains(e) ==> exists|k: int|
                0 <= k < cs.len() && cs[k].entity == e,
    decreases cs.len(),
{
    if cs.len() > 0 {
        let pre = cs.drop_last();
        let last = cs.last();
        let n = cs.len() - 1;
        lemma_hits_exactly_once(line, meshes, pre);
        let rest = hit_entities(line, meshes, pre);
        assert(!rest.contains(last.entity)) by {
            if rest.contains(last.entity) {
                let k = choose|k: int| 0 <= k < pre.len() && pre[k].entity == last.entity;
                assert(cs[k].entity == cs[n].entity);
            }
        }
        let all = hit_entities(line, meshes, cs);
        assert(pre.len() == n);
        if candidate_hit(line, meshes, last) {
            assert(all == rest.push(last.entity));
        } else {
            assert(all == rest);
        }
        assert forall|k: int| 0 <= k < cs.len() implies (all.contains(#[trigger] cs[k].entity)
            <==> candidate_hit(line, meshes, cs[k])) by {
            if k < n {
                assert(cs[k] == pre[k]);
                assert(cs[k].entity != last.entity);
                if candidate_hit(line, meshes, last) {
                    assert(all == rest.push(last.entity));
                    assert(all.contains(cs[k].entity) ==> rest.contains(cs[k].entity)) by {
                        if all.contains(cs[k].entity) {
                            let i = choose|i: int| 0 <= i < all.len() && all[i] == cs[k].entity;
                            if i < rest.len() {
                                assert(rest[i] == cs[k].entity);
                            }
                        }
                    }
                    assert(rest.contains(cs[k].entity) ==> all.contains(cs[k].entity)) by {
                        if rest.contains(cs[k].entity) {
                            let i = choose|i: int| 0 <= i < rest.len() && rest[i] == cs[k].entity;
                            assert(all[i] == cs[k].entity);
                        }
                    }
                }
            } else {
                if candidate_hit(line, meshes, last) {
                    assert(all[rest.len() as int] == last.entity);
                }
            }
        }
        assert forall|e: Entity| #[trigger] all.contains(e) implies exists|k: int|
            0 <= k < cs.len() && cs[k].entity == e by {
            let i = choose|i: int| 0 <= i < all.len() && all[i] == e;
            if i < rest.len() {
                assert(rest[i] == e);
                assert(rest.contains(e));
                let k = choose|k: int| 0 <= k < pre.len() && pre[k].entity == e;
                assert(cs[k] == pre[k]);
            } else {
                assert(cs[n].entity == e);
            }
        }
        if candidate_hit(line, meshes, last) {
            assert forall|i: int, j: int| 0 <= i < j < all.len() implies all[i] != all[j] by {
                if j == rest.len() {
                    assert(rest[i] == all[i]);
                } else {
                    assert(rest[i] == all[i] && rest[j] == all[j]);
                }
            }
        }
    }
}

/// Firing the same ray in two events against an unchanged scene reports
/// the same hits for both: the pass's report is the first event's hits
/// followed by an equal list, and the two sets of entities are equal.
pub proof fn lemma_fire_twice_same_hits<Layer>(
    first: FireRay<Layer>,
    second: FireRay<Layer>,
    meshes: Seq<MeshData>,
    cs: Seq<Candidate<Layer>>,
)
    requires
        first.line == second.line,
    ensures
        fired_entities(seq![first, second], meshes, cs) == hit_entities(first.line, meshes, cs)
            + hit_entities(first.line, meshes, cs),
        hit_entities(first.line, meshes, cs).to_set() == hit_entities(second.line, meshes, cs).to_set(),
{
    let rays = seq![first, second];
    assert(rays.drop_last() =~= seq![first]);
    let one = seq![first];
    assert(one.drop_last() =~= Seq::<FireRay<Layer>>::empty());
    assert(one.last() == first);
    assert(fired_entities(one.drop_last(), meshes, cs) =~= Seq::<Entity>::empty());
    assert(fired_entities(seq![first], meshes, cs) =~= hit_entities(first.line, meshes, cs));
}

} // verus!
