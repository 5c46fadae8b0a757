//! The opaque model pass: textured, lit by the point lights of the frame.
//! It also owns what is uploaded for all passes that draw models: the
//! instance matrices and the point light uniform.

use vstd::prelude::*;
use crate::assets::{AssetManager, AssetsView};
use crate::instancing::{
    fits, is_copy_list, offset_map, staged, upload_instances, EntityFilter, InstanceOverflow,
};
use crate::pass::{is_model_draws, model_draws, Draw, Pass, PassKind, PassUpdate};
use crate::point_light::{PointLightRaw, PointLightsUniforms};
use crate::scene::{LightEntity, Scene};

verus! {

pub struct ModelPass;

/// The lights of a scene as shaders read them, in scene order.
pub open spec fn raw_lights(lights: Seq<LightEntity>) -> Seq<PointLightRaw> {
    Seq::new(
        lights.len(),
        |i: int| PointLightRaw::packed(lights[i].light, lights[i].position, lights[i].light_space_matrix),
    )
}

impl ModelPass {
    pub fn new() -> ModelPass {
        ModelPass
    }

    /// The point light uniform of a frame: the lights in scene order, the
    /// first sixteen at most.
    pub fn update_lights(&self, lights: &Vec<LightEntity>) -> (uniform: PointLightsUniforms)
        ensures
            uniform.gathers(raw_lights(lights@)),
    {
        let mut raws: Vec<PointLightRaw> = Vec::new();
        let mut i: usize = 0;
        while i < lights.len()
            invariant
                i <= lights@.len(),
                raws@.len() == i,
                forall|j: int| 0 <= j < i ==> #[trigger] raws@[j] == raw_lights(lights@)[j],
            decreases lights.len() - i,
        {
            raws.push(lights[i].raw());
            i = i + 1;
        }
        assert(raws@ =~= raw_lights(lights@));
        PointLightsUniforms::gather(&raws)
    }
}

impl Pass for ModelPass {
    open spec fn kind(&self) -> PassKind {
        PassKind::Model
    }

    /// The instance upload of the frame and its point light uniform.
    open spec fn updates(&self, assets: AssetsView, scene: Scene, update: PassUpdate) -> bool {
        &&& update is Model
        &&& fits(assets, scene.chunks@, scene.chunks@.len() as int)
        &&& update->upload.staging@ == staged(assets, scene.chunks@, scene.chunks@.len() as int)
        &&& is_copy_list(assets, scene.chunks@, update->upload.copies@)
        &&& update->upload.offsets@ == offset_map(assets, scene.chunks@)
        &&& update->point_lights.gathers(raw_lights(scene.lights@))
    }

    /// The entity groups that carry no light, with their textures.
    open spec fn draws(&self, assets: AssetsView, scene: Scene, draws: Seq<Draw>) -> bool {
        is_model_draws(assets, scene.chunks@, EntityFilter::WithoutLight, true, draws)
    }

    fn update_uniform_data(&self, assets: &AssetManager, scene: &Scene) -> (res: Result<
        PassUpdate,
        InstanceOverflow,
    >) {
        let point_lights = self.update_lights(&scene.lights);
        match upload_instances(assets, &scene.chunks) {
            Ok(upload) => Ok(PassUpdate::Model { upload, point_lights }),
            Err(e) => Err(e),
        }
    }

    fn render(&self, assets: &AssetManager, scene: &Scene) -> (res: Result<Vec<Draw>, InstanceOverflow>) {
        model_draws(assets, &scene.chunks, EntityFilter::WithoutLight, true)
    }
}

} // verus!
