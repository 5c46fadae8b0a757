//! The environment pass of the water: the opaque scene as a water surface
//! sees it, drawn into the environment map.

use vstd::prelude::*;
use crate::assets::{AssetManager, AssetsView};
use crate::instancing::{EntityFilter, InstanceOverflow};
use crate::pass::{is_model_draws, model_draws, Draw, Pass, PassKind, PassUpdate};
use crate::scene::{Scene, Surface};
use crate::uniform::LightSpaceMatrix;

verus! {

pub struct WaterEnvironmentPass;

impl WaterEnvironmentPass {
    pub fn new() -> WaterEnvironmentPass {
        WaterEnvironmentPass
    }

    /// The private uniform of the pass for one surface.
    pub fn update_uniforms(&self, surface: &Surface) -> (uniform: LightSpaceMatrix)
        ensures
            uniform.light_space_matrix == surface.environment_matrix,
    {
        LightSpaceMatrix { light_space_matrix: surface.environment_matrix }
    }
}

impl Pass for WaterEnvironmentPass {
    open spec fn kind(&self) -> PassKind {
        PassKind::WaterEnvironment
    }

    open spec fn updates(&self, assets: AssetsView, scene: Scene, update: PassUpdate) -> bool {
        update is Nothing
    }

    /// The entity groups that carry no light, without textures.
    open spec fn draws(&self, assets: AssetsView, scene: Scene, draws: Seq<Draw>) -> bool {
        is_model_draws(assets, scene.chunks@, EntityFilter::WithoutLight, false, draws)
    }

    fn update_uniform_data(&self, assets: &AssetManager, scene: &Scene) -> (res: Result<
        PassUpdate,
        InstanceOverflow,
    >)
        ensures
            res is Ok,
    {
        Ok(PassUpdate::Nothing)
    }

    fn render(&self, assets: &AssetManager, scene: &Scene) -> (res: Result<Vec<Draw>, InstanceOverflow>) {
        model_draws(assets, &scene.chunks, EntityFilter::WithoutLight, false)
    }
}

} // verus!
