//! The light marker pass: geometry that stands for the light sources, drawn
//! over the opaque scene and hidden where the scene is in front.

use vstd::prelude::*;
use crate::assets::{AssetManager, AssetsView};
use crate::instancing::{EntityFilter, InstanceOverflow};
use crate::pass::{is_model_draws, model_draws, Draw, Pass, PassKind, PassUpdate};
use crate::scene::Scene;

verus! {

pub struct LightObjectPass;

impl LightObjectPass {
    pub fn new() -> LightObjectPass {
        LightObjectPass
    }
}

impl Pass for LightObjectPass {
    open spec fn kind(&self) -> PassKind {
        PassKind::LightObject
    }

    open spec fn updates(&self, assets: AssetsView, scene: Scene, update: PassUpdate) -> bool {
        update is Nothing
    }

    /// The entity groups that carry a light, without textures.
    open spec fn draws(&self, assets: AssetsView, scene: Scene, draws: Seq<Draw>) -> bool {
        is_model_draws(assets, scene.chunks@, EntityFilter::WithLight, false, draws)
    }

    fn update_uniform_data(&self, assets: &AssetManager, scene: &Scene) -> (res: Result<
        PassUpdate,
        InstanceOverflow,
    >)
        ensures
            res is Ok,
    {
        Ok(PassUpdate::Nothing)
    }

    fn render(&self, assets: &AssetManager, scene: &Scene) -> (res: Result<Vec<Draw>, InstanceOverflow>) {
        model_draws(assets, &scene.chunks, EntityFilter::WithLight, false)
    }
}

} // verus!
