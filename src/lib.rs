//! Skinning rigs for voxel characters: region partitioning of mesh vertices
//! into joints, and a walk over a voxel scene tree that builds them.
pub mod bits;
pub mod dealers;
pub mod laws;
pub mod mesh;
pub mod pose;
pub mod scene;
pub mod types;

use dealers::{Dealt, DealtView};
use mesh::{MeshView, RawMesh};
use vstd::prelude::*;

verus! {

/// A rig builder: what it makes of a mesh, and the function that makes it.
pub trait DealWithJoints {
    spec fn dealt_of(&self, m: MeshView) -> DealtView;

    /// Builds from `mesh`; nothing where the mesh is absent.
    fn deal(&self, mesh: Option<&RawMesh>) -> (r: Option<Dealt>)
        ensures
            r.is_some() == mesh.is_some(),
            mesh.is_some() ==> r.unwrap()@ == self.dealt_of(mesh.unwrap()@),
    ;
}

/// Marker kept for callers that group the rig builders under one owner.
pub struct DealerHolder {}

} // verus!
