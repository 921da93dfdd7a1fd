//! Voxel chunk meshing and the bookkeeping of an asynchronous chunk pipeline.
//!
//! `grid` samples column heights into a padded occupancy grid and classifies
//! the exposed faces of each voxel, `mesh` accumulates one quad per exposed
//! face, `chunk` meshes a whole chunk, and `manager` tracks the jobs in
//! flight and decides what a worker does with a job.
use vstd::prelude::*;

pub mod chunk;
pub mod grid;
pub mod manager;
pub mod mesh;
pub mod sides;

verus! {

} // verus!
