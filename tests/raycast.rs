use std::marker::PhantomData;

use raypick::line::{Affine3, Line};
use raypick::mesh::{Indices, IntoUsize, MeshData, Topology};
use raypick::raycast::{cast_ray, fire_ray, Candidate, Entity, FireRay, RayHit, RayHitable};
use raypick::vec3::IVec3;

struct World;

fn v(x: i32, y: i32, z: i32) -> IVec3 {
    IVec3::new(x, y, z)
}

fn identity() -> Affine3 {
    translation(0, 0, 0)
}

fn translation(x: i32, y: i32, z: i32) -> Affine3 {
    Affine3 { x_axis: v(1, 0, 0), y_axis: v(0, 1, 0), z_axis: v(0, 0, 1), translation: v(x, y, z) }
}

/// A square of side 200 in the plane z = 0, centred on the origin, facing +z.
fn quad() -> MeshData {
    MeshData {
        topology: Topology::TriangleList,
        positions: vec![
            v(-100, -100, 0),
            v(100, -100, 0),
            v(100, 100, 0),
            v(-100, -100, 0),
            v(100, 100, 0),
            v(-100, 100, 0),
        ],
        indices: None,
    }
}

fn candidate(id: u64, mesh: usize, world_to_mesh: Affine3) -> Candidate<World> {
    Candidate {
        entity: Entity { id },
        visible: true,
        computed_visible: true,
        mesh,
        world_to_mesh,
        hitable: RayHitable::new(),
    }
}

fn down_ray() -> Line {
    Line::new(v(0, 0, 1000), v(0, 0, -1))
}

fn ids(hits: &[RayHit<World>]) -> Vec<u64> {
    hits.iter().map(|h| h.entity.id).collect()
}

#[test]
fn raycast_triangle_mt() {
    let v0 = v(1, -1, 2);
    let v1 = v(1, 2, -1);
    let v2 = v(1, -1, -1);
    let triangle = [v0, v1, v2];
    let ray = Line::new(v(0, 0, 0), v(1, 0, 0));
    let result = ray.intersect_tri(&triangle);
    assert!(result.is_some());
}

#[test]
fn intersect_reports_scaled_coordinates() {
    let triangle = [v(1, -1, 2), v(1, 2, -1), v(1, -1, -1)];
    let ray = Line::new(v(0, 0, 0), v(1, 0, 0));
    let hit = ray.intersect_tri(&triangle).unwrap();
    assert_eq!(hit.det, 9);
    assert_eq!(hit.u, 3);
    assert_eq!(hit.v, 3);
    // t = 9 / 9: the plane x = 1 is one direction-length away.
    assert_eq!(hit.t, 9);
}

#[test]
fn rotated_triangle_still_hit() {
    let ray = Line::new(v(0, 0, 0), v(1, 0, 0));
    let (a, b, c) = (v(1, -1, 2), v(1, 2, -1), v(1, -1, -1));
    assert!(ray.intersect_tri(&[a, b, c]).is_some());
    assert!(ray.intersect_tri(&[b, c, a]).is_some());
    assert!(ray.intersect_tri(&[c, a, b]).is_some());
    let miss = Line::new(v(0, 50, 50), v(1, 0, 0));
    assert!(miss.intersect_tri(&[a, b, c]).is_none());
    assert!(miss.intersect_tri(&[b, c, a]).is_none());
    assert!(miss.intersect_tri(&[c, a, b]).is_none());
}

#[test]
fn back_facing_triangle_is_not_hit() {
    let ray = Line::new(v(0, 0, 0), v(1, 0, 0));
    let (a, b, c) = (v(1, -1, 2), v(1, 2, -1), v(1, -1, -1));
    assert!(ray.intersect_tri(&[a, c, b]).is_none());
    assert!(ray.intersect_tri(&[b, a, c]).is_none());
}

#[test]
fn centroid_is_hit() {
    let (a, b, c) = (v(0, 0, 0), v(30, 0, 0), v(0, 30, 0));
    // Centroid (10, 10, 0), approached from +z.
    let ray = Line::new(v(10, 10, 7), v(0, 0, -1));
    let hit = ray.intersect_tri(&[a, b, c]).unwrap();
    assert_eq!(hit.u * 3, hit.det);
    assert_eq!(hit.v * 3, hit.det);
}

#[test]
fn parallel_ray_never_hits() {
    let (a, b, c) = (v(0, 0, 0), v(30, 0, 0), v(0, 30, 0));
    let in_plane = Line::new(v(-10, 5, 0), v(1, 0, 0));
    assert!(in_plane.intersect_tri(&[a, b, c]).is_none());
    let above = Line::new(v(-10, 5, 3), v(1, 1, 0));
    assert!(above.intersect_tri(&[a, b, c]).is_none());
}

#[test]
fn transform_maps_point_and_vector() {
    let m = Affine3 { x_axis: v(0, 1, 0), y_axis: v(-1, 0, 0), z_axis: v(0, 0, 2), translation: v(5, 6, 7) };
    let line = Line::new(v(1, 2, 3), v(1, 0, 1));
    let r = line.transform(m);
    assert_eq!(r.origin, v(3, 7, 13));
    assert_eq!(r.direction, v(0, 1, 2));
}

#[test]
fn line_mesh_spans_the_segment() {
    let line = Line::new(v(1, 2, 3), v(0, 0, -1));
    let m = line.line_mesh(0, 10).unwrap();
    assert_eq!(m.topology, Topology::LineList);
    assert!(m.indices.is_none());
    assert_eq!(m.positions, vec![v(1, 2, 3), v(1, 2, -7)]);
    let far = Line::new(v(0, 0, 0), v(i32::MAX, 0, 0));
    assert!(far.line_mesh(0, 10).is_none());
}

#[test]
fn raw_positions_give_consecutive_triples() {
    let q = quad();
    assert_eq!(q.triangle_count(), 2);
    let tris = q.triangles();
    assert_eq!(tris.len(), 2);
    assert_eq!(tris[0], [v(-100, -100, 0), v(100, -100, 0), v(100, 100, 0)]);
    assert_eq!(tris[1], [v(-100, -100, 0), v(100, 100, 0), v(-100, 100, 0)]);
}

#[test]
fn indices_pick_positions_in_order() {
    let m = MeshData {
        topology: Topology::TriangleList,
        positions: vec![v(0, 0, 0), v(1, 0, 0), v(0, 1, 0), v(1, 1, 0)],
        indices: Some(Indices::U32(vec![0, 1, 2, 2, 1, 3])),
    };
    let tris = m.triangles();
    assert_eq!(tris.len(), 2);
    assert_eq!(tris[0], [v(0, 0, 0), v(1, 0, 0), v(0, 1, 0)]);
    assert_eq!(tris[1], [v(0, 1, 0), v(1, 0, 0), v(1, 1, 0)]);
    assert_eq!(m.triangle_at(1), tris[1]);
}

#[test]
fn index_widths_widen_exactly() {
    assert_eq!(65535u16.into_usize(), 65535);
    assert_eq!(4_000_000_000u32.into_usize(), 4_000_000_000);
}

#[test]
fn single_visible_quad_is_hit_once() {
    let meshes = vec![quad()];
    let cands = vec![candidate(7, 0, identity())];
    let rays = vec![FireRay::<World>::new(down_ray())];
    let hits = fire_ray(&rays, &meshes, &cands);
    assert_eq!(ids(&hits), vec![7]);
}

#[test]
fn invisible_quad_is_not_hit() {
    let meshes = vec![quad()];
    let mut c = candidate(7, 0, identity());
    c.visible = false;
    let rays = vec![FireRay::<World>::new(down_ray())];
    assert!(fire_ray(&rays, &meshes, &vec![c]).is_empty());
    let mut c = candidate(7, 0, identity());
    c.computed_visible = false;
    assert!(fire_ray(&rays, &meshes, &vec![c]).is_empty());
}

#[test]
fn stacked_quads_are_both_hit() {
    let meshes = vec![quad()];
    // The second quad stands at z = -50: its world-to-mesh map adds 50 to z.
    let cands = vec![candidate(1, 0, identity()), candidate(2, 0, translation(0, 0, 50))];
    let rays = vec![FireRay::<World>::new(down_ray())];
    let mut got = ids(&fire_ray(&rays, &meshes, &cands));
    got.sort();
    assert_eq!(got, vec![1, 2]);
}

#[test]
fn narrow_indices_single_triangle_is_hit() {
    let m = MeshData {
        topology: Topology::TriangleList,
        positions: vec![v(-100, -100, 0), v(100, -100, 0), v(0, 100, 0)],
        indices: Some(Indices::U16(vec![0, 1, 2])),
    };
    assert_eq!(m.triangles().len(), 1);
    assert_eq!(m.triangle_at(0), [v(-100, -100, 0), v(100, -100, 0), v(0, 100, 0)]);
    let meshes = vec![m];
    let cands = vec![candidate(3, 0, identity())];
    let rays = vec![FireRay::<World>::new(down_ray())];
    assert_eq!(ids(&fire_ray(&rays, &meshes, &cands)), vec![3]);
}

#[test]
fn same_ray_twice_hits_the_same_entities() {
    let meshes = vec![quad()];
    let cands = vec![
        candidate(1, 0, identity()),
        candidate(2, 0, translation(1000, 0, 0)),
        candidate(3, 0, translation(0, 0, 50)),
    ];
    let rays = vec![FireRay::<World>::new(down_ray()), FireRay::<World>::new(down_ray())];
    let got = ids(&fire_ray(&rays, &meshes, &cands));
    assert_eq!(got, vec![1, 3, 1, 3]);
}

#[test]
fn non_triangle_list_and_missing_mesh_are_skipped() {
    let mut strip = quad();
    strip.topology = Topology::TriangleStrip;
    let meshes = vec![strip, quad()];
    let cands = vec![candidate(1, 0, identity()), candidate(2, 5, identity()), candidate(3, 1, identity())];
    let rays = vec![FireRay::<World>::new(down_ray())];
    assert_eq!(ids(&fire_ray(&rays, &meshes, &cands)), vec![3]);
}

#[test]
fn cast_ray_appends_in_candidate_order() {
    let meshes = vec![quad()];
    let cands = vec![candidate(4, 0, identity()), candidate(5, 0, translation(0, 500, 0)), candidate(6, 0, identity())];
    let mut hits: Vec<RayHit<World>> = vec![RayHit { entity: Entity { id: 9 }, _m: PhantomData }];
    cast_ray(&down_ray(), &meshes, &cands, &mut hits);
    assert_eq!(ids(&hits), vec![9, 4, 6]);
}

#[test]
fn ray_missing_the_quad_reports_nothing() {
    let meshes = vec![quad()];
    let cands = vec![candidate(1, 0, identity())];
    let rays = vec![FireRay::<World>::new(Line::new(v(500, 0, 1000), v(0, 0, -1)))];
    assert!(fire_ray(&rays, &meshes, &cands).is_empty());
    // From below, the quad faces away from the ray.
    let rays = vec![FireRay::<World>::new(Line::new(v(0, 0, -1000), v(0, 0, 1)))];
    assert!(fire_ray(&rays, &meshes, &cands).is_empty());
}
