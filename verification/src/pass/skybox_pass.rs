//! The skybox pass: the far background, drawn first.

use vstd::prelude::*;
use crate::assets::{AssetManager, AssetsView};
use crate::instancing::InstanceOverflow;
use crate::pass::{Draw, Pass, PassKind, PassUpdate};
use crate::scene::Scene;

verus! {

/// Vertices of the one triangle that covers the screen.
pub const SKYBOX_VERTICES: u32 = 3;

pub struct SkyboxPass;

impl SkyboxPass {
    pub fn new() -> SkyboxPass {
        SkyboxPass
    }
}

impl Pass for SkyboxPass {
    open spec fn kind(&self) -> PassKind {
        PassKind::Skybox
    }

    open spec fn updates(&self, assets: AssetsView, scene: Scene, update: PassUpdate) -> bool {
        update is Nothing
    }

    /// One triangle, whatever the scene holds.
    open spec fn draws(&self, assets: AssetsView, scene: Scene, draws: Seq<Draw>) -> bool {
        draws == seq![Draw::Vertices { vertices: SKYBOX_VERTICES }]
    }

    fn update_uniform_data(&self, assets: &AssetManager, scene: &Scene) -> (res: Result<
        PassUpdate,
        InstanceOverflow,
    >)
        ensures
            res is Ok,
    {
        Ok(PassUpdate::Nothing)
    }

    fn render(&self, assets: &AssetManager, scene: &Scene) -> (res: Result<Vec<Draw>, InstanceOverflow>)
        ensures
            res is Ok,
    {
        let mut draws: Vec<Draw> = Vec::new();
        draws.push(Draw::Vertices { vertices: SKYBOX_VERTICES });
        assert(draws@ =~= seq![Draw::Vertices { vertices: SKYBOX_VERTICES }]);
        Ok(draws)
    }
}

} // verus!
