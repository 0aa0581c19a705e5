//! Ray picking against triangle meshes, in exact integer geometry.
//!
//! Coordinates are fixed-point integers (`i32`). The one-sided
//! Möller–Trumbore test is evaluated exactly in `i128`, so it compares the
//! barycentric coordinates and the determinant without division or rounding.
//!
//! - `vec3`, `algebra`: vectors, their integer model, and vector identities.
//! - `line`: rays, affine maps, and the triangle test.
//! - `mesh`: mesh geometry and triangle extraction (each three consecutive
//!   slots of the index buffer, or of the positions, form one triangle).
//! - `raycast`: layer-tagged requests and hits, and the dispatch pass.
//! - `laws`: relabelling, parallel and centroid laws of the triangle test.
//! - `shape`, `grid`: index buffers of procedural meshes, and hex-grid
//!   axial coordinates.
use vstd::prelude::*;

pub mod algebra;
pub mod grid;
pub mod laws;
pub mod line;
pub mod mesh;
pub mod raycast;
pub mod shape;
pub mod vec3;

verus! {

/// The tile map's plugin: it registers nothing of its own yet.
pub struct TileMapPlugin;

} // verus!
