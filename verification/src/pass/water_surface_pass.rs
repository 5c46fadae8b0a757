//! The water surface pass: one grid for each water surface of the scene.

use vstd::prelude::*;
use crate::assets::{AssetManager, AssetsView};
use crate::instancing::InstanceOverflow;
use crate::pass::{Draw, Pass, PassKind, PassUpdate};
use crate::scene::{Scene, Surface};
use crate::words::Matrix4;

verus! {

pub struct WaterSurfacePass;

/// The draw of surface number `i`.
pub open spec fn surface_draw(surfaces: Seq<Surface>, i: int) -> Draw {
    Draw::Surface { surface: i as usize, indices: surfaces[i].height_map.number_of_indices }
}

impl WaterSurfacePass {
    pub fn new() -> WaterSurfacePass {
        WaterSurfacePass
    }

    /// The model matrix of every surface, in scene order: what the pass
    /// writes into its private uniform before it draws that surface.
    pub fn model_matrices(&self, surfaces: &Vec<Surface>) -> (matrices: Vec<Matrix4>)
        ensures
            matrices@.len() == surfaces@.len(),
            forall|i: int| 0 <= i < surfaces@.len() ==> #[trigger] matrices@[i] == surfaces@[i].model_matrix,
    {
        let mut matrices: Vec<Matrix4> = Vec::new();
        let mut i: usize = 0;
        while i < surfaces.len()
            invariant
                i <= surfaces@.len(),
                matrices@.len() == i,
                forall|j: int| 0 <= j < i ==> #[trigger] matrices@[j] == surfaces@[j].model_matrix,
            decreases surfaces.len() - i,
        {
            matrices.push(surfaces[i].model_matrix);
            i = i + 1;
        }
        matrices
    }
}

impl Pass for WaterSurfacePass {
    open spec fn kind(&self) -> PassKind {
        PassKind::WaterSurface
    }

    /// The model matrix of every surface, in scene order.
    open spec fn updates(&self, assets: AssetsView, scene: Scene, update: PassUpdate) -> bool {
        &&& update is Surfaces
        &&& update->model_matrices@.len() == scene.surfaces@.len()
        &&& forall|i: int|
            0 <= i < scene.surfaces@.len() ==> #[trigger] update->model_matrices@[i]
                == scene.surfaces@[i].model_matrix
    }

    /// One draw for every surface, in scene order.
    open spec fn draws(&self, assets: AssetsView, scene: Scene, draws: Seq<Draw>) -> bool {
        &&& draws.len() == scene.surfaces@.len()
        &&& forall|i: int| 0 <= i < draws.len() ==> #[trigger] draws[i] == surface_draw(scene.surfaces@, i)
    }

    fn update_uniform_data(&self, assets: &AssetManager, scene: &Scene) -> (res: Result<
        PassUpdate,
        InstanceOverflow,
    >)
        ensures
            res is Ok,
    {
        Ok(PassUpdate::Surfaces { model_matrices: self.model_matrices(&scene.surfaces) })
    }

    fn render(&self, assets: &AssetManager, scene: &Scene) -> (res: Result<Vec<Draw>, InstanceOverflow>)
        ensures
            res is Ok,
    {
        let mut draws: Vec<Draw> = Vec::new();
        let mut i: usize = 0;
        while i < scene.surfaces.len()
            invariant
                i <= scene.surfaces@.len(),
                draws@.len() == i,
                forall|j: int| 0 <= j < i ==> #[trigger] draws@[j] == surface_draw(scene.surfaces@, j),
            decreases scene.surfaces.len() - i,
        {
            draws.push(Draw::Surface { surface: i, indices: scene.surfaces[i].height_map.number_of_indices });
            i = i + 1;
        }
        Ok(draws)
    }
}

} // verus!
