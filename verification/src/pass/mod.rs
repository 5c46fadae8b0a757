//! Render passes: what a pass draws into, how it treats what is there, and
//! the interface that every pass offers to the frame orchestrator.

use vstd::prelude::*;
use crate::assets::{AssetManager, AssetsView};
use crate::instancing::{
    draw_calls, draw_of, first_overflow, fits, selected, Chunk, DrawCall, EntityFilter, InstanceOverflow,
    InstanceUpload,
};
use crate::point_light::PointLightsUniforms;
use crate::scene::Scene;
use crate::words::Matrix4;

pub mod light_object_pass;
pub mod model_pass;
pub mod shadow_pass;
pub mod skybox_pass;
pub mod water_environment_pass;
pub mod water_surface_pass;

verus! {

/// The passes of a frame.
#[derive(Clone, Copy, Debug, PartialEq, Eq, Structural)]
pub enum PassKind {
    /// Depth of the scene as one light sees it.
    Shadow,
    /// The scene as a water surface sees it.
    WaterEnvironment,
    Skybox,
    WaterSurface,
    /// Opaque models, lit and shadowed.
    Model,
    /// Markers at the light sources.
    LightObject,
    Ui,
}

/// What a pass does with the content of an attachment before it draws.
#[derive(Clone, Copy, Debug, PartialEq, Eq, Structural)]
pub enum LoadOp {
    Clear,
    Load,
}

/// Something a pass can draw into.
#[derive(Clone, Copy, Debug, PartialEq, Eq, Structural)]
pub enum Attachment {
    /// The image that is presented.
    Swapchain,
    /// The depth buffer that the passes of the main sequence share.
    Depth,
    /// One layer of the shadow texture.
    ShadowLayer(u32),
    /// The environment map of the water.
    WaterMap,
}

/// An attachment and what happens to its content. Results are always stored.
#[derive(Clone, Copy, Debug, PartialEq, Eq, Structural)]
pub struct AttachmentOps {
    pub target: Attachment,
    pub load: LoadOp,
}

/// Where a pass draws.
#[derive(Clone, Copy, Debug, PartialEq, Eq, Structural)]
pub struct PassTargets {
    pub color: Option<Attachment>,
    pub depth: Option<Attachment>,
}

/// Where a pass draws, and how it treats what is there.
#[derive(Clone, Copy, Debug, PartialEq, Eq, Structural)]
pub struct RenderPassDescriptor {
    pub color: Option<AttachmentOps>,
    pub depth: Option<AttachmentOps>,
}

/// One draw of a pass.
#[derive(Clone, Copy, Debug, PartialEq, Eq, Structural)]
pub enum Draw {
    /// Every mesh of a model, once for each instance of the range. A textured
    /// draw binds the material of each mesh.
    Model { call: DrawCall, textured: bool },
    /// This many vertices that the shader makes up itself, once.
    Vertices { vertices: u32 },
    /// The grid of water surface number `surface`, once.
    Surface { surface: usize, indices: u32 },
    /// The draws of user-interface draw list number `list`, which the frame
    /// plan holds.
    UiList { list: usize },
}

/// What a pass writes before anything is drawn.
pub enum PassUpdate {
    /// The pass has nothing to write.
    Nothing,
    /// The instance matrices of the frame and the point light uniform.
    Model { upload: InstanceUpload, point_lights: PointLightsUniforms },
    /// The model matrix of each water surface, in scene order.
    Surfaces { model_matrices: Vec<Matrix4> },
}

/// That `draws` holds one draw for each entity group that takes part in the
/// frame and passes `filter`, in scene order, all textured or all not.
pub open spec fn is_model_draws(
    assets: AssetsView,
    chunks: Seq<Chunk>,
    filter: EntityFilter,
    textured: bool,
    draws: Seq<Draw>,
) -> bool {
    let picked = selected(assets, chunks, filter, chunks.len() as int);
    &&& fits(assets, chunks, chunks.len() as int)
    &&& draws.len() == picked.len()
    &&& forall|k: int|
        0 <= k < draws.len() ==> #[trigger] draws[k] == (Draw::Model {
            call: draw_of(chunks, picked[k]),
            textured,
        })
}

/// The model draws of a pass.
pub fn model_draws(assets: &AssetManager, chunks: &Vec<Chunk>, filter: EntityFilter, textured: bool) -> (res:
    Result<Vec<Draw>, InstanceOverflow>)
    requires
        assets.wf(),
    ensures
        match res {
            Ok(draws) => is_model_draws(assets@, chunks@, filter, textured, draws@),
            Err(e) => first_overflow(assets@, chunks@, e),
        },
{
    let calls = match draw_calls(assets, chunks, filter) {
        Ok(calls) => calls,
        Err(e) => {
            return Err(e);
        },
    };
    let mut draws: Vec<Draw> = Vec::new();
    let mut k: usize = 0;
    while k < calls.len()
        invariant
            k <= calls@.len(),
            draws@.len() == k,
            forall|j: int| 0 <= j < k ==> #[trigger] draws@[j] == (Draw::Model { call: calls@[j], textured }),
        decreases calls.len() - k,
    {
        draws.push(Draw::Model { call: calls[k], textured });
        k = k + 1;
    }
    Ok(draws)
}

/// What the frame orchestrator asks of every pass.
///
/// A pass reads the scene and the assets and never changes them. It writes
/// only what is its own.
pub trait Pass {
    /// The place of the pass in a frame.
    spec fn kind(&self) -> PassKind;

    /// That `update` is what the pass has to write for `scene`.
    spec fn updates(&self, assets: AssetsView, scene: Scene, update: PassUpdate) -> bool;

    /// That `draws` is what the pass has to draw for `scene`.
    spec fn draws(&self, assets: AssetsView, scene: Scene, draws: Seq<Draw>) -> bool;

    /// What the pass writes before the frame is drawn. Fails only where an
    /// entity group does not fit into the instance buffer of its model.
    fn update_uniform_data(&self, assets: &AssetManager, scene: &Scene) -> (res: Result<
        PassUpdate,
        InstanceOverflow,
    >)
        requires
            assets.wf(),
        ensures
            match res {
                Ok(update) => self.updates(assets@, *scene, update),
                Err(e) => first_overflow(assets@, scene.chunks@, e),
            },
    ;

    /// What the pass draws. Fails only where an entity group does not fit
    /// into the instance buffer of its model.
    fn render(&self, assets: &AssetManager, scene: &Scene) -> (res: Result<Vec<Draw>, InstanceOverflow>)
        requires
            assets.wf(),
        ensures
            match res {
                Ok(draws) => self.draws(assets@, *scene, draws@),
                Err(e) => first_overflow(assets@, scene.chunks@, e),
            },
    ;
}

} // verus!
