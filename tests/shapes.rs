use raypick::grid::grid_coords;
use raypick::line::Line;
use raypick::mesh::{Indices, MeshData, Topology};
use raypick::shape::{cylinder_indices, player_indices, PLAYER_VERTEX_COUNT};
use raypick::vec3::IVec3;

#[test]
fn hexagonal_cylinder_indices() {
    let r = cylinder_indices(6);
    assert_eq!(r.len(), 72);
    assert_eq!(&r[0..3], &[0, 1, 2]);
    assert_eq!(&r[15..18], &[0, 6, 1]);
    assert_eq!(&r[18..24], &[1, 7, 2, 7, 8, 2]);
    assert_eq!(&r[48..54], &[6, 12, 1, 12, 7, 1]);
    assert_eq!(&r[54..57], &[13, 8, 7]);
    assert_eq!(&r[69..72], &[13, 7, 12]);
    assert!(r.iter().all(|&k| k < 14));
}

#[test]
fn cylinder_without_segments_is_empty() {
    assert!(cylinder_indices(0).is_empty());
}

#[test]
fn cylinder_indices_form_a_mesh() {
    let idx = cylinder_indices(3);
    let positions: Vec<IVec3> = (0..8).map(|k| IVec3::new(k, k * k, 1 - k)).collect();
    let m = MeshData { topology: Topology::TriangleList, positions, indices: Some(Indices::U32(idx)) };
    assert_eq!(m.triangles().len(), 12);
}

#[test]
fn player_indices_cover_thirteen_vertices() {
    let r = player_indices();
    assert_eq!(r.len(), 66);
    assert_eq!(&r[0..6], &[2, 0, 1, 3, 0, 2]);
    assert_eq!(&r[63..66], &[11, 9, 12]);
    assert!(r.iter().all(|&k| k < PLAYER_VERTEX_COUNT));
    assert_eq!(r.iter().copied().max(), Some(12));
}

#[test]
fn grid_of_radius_two() {
    let r = grid_coords(2);
    assert_eq!(r, vec![(0, 0), (-1, 2), (-2, 1), (-1, -1), (1, -2), (2, -1), (1, 1)]);
}

#[test]
fn grid_sizes() {
    assert_eq!(grid_coords(0), vec![(0, 0)]);
    assert_eq!(grid_coords(1), vec![(0, 0)]);
    assert_eq!(grid_coords(3).len(), 19);
    assert_eq!(grid_coords(6).len(), 91);
    // Sector 0, ring 2: i = 2, j = 1, 2.
    let r = grid_coords(3);
    assert_eq!(r[2], (-1, 3));
    assert_eq!(r[3], (-2, 4));
}

#[test]
fn plane_intersection_is_not_supported() {
    assert_eq!(Line::intersect_plane(), None);
}
