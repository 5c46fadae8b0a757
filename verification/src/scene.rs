//! One frame's snapshot of the scene, as the scene queries report it. Upload
//! and draw read the same snapshot, so they agree on every range.

use vstd::prelude::*;
use crate::directional_light::{DirectionalLight, DirectionalLightRaw};
use crate::instancing::Chunk;
use crate::point_light::{PointLight, PointLightRaw};
use crate::ui::UiCommand;
use crate::uniform::CameraUniform;
use crate::words::{Matrix4, Vector3};

verus! {

/// An entity that carries a point light.
#[derive(Clone, Copy, Debug, PartialEq, Eq, Structural)]
pub struct LightEntity {
    pub light: PointLight,
    /// Where the entity stands.
    pub position: Vector3,
    /// Takes world space into the clip space of the light.
    pub light_space_matrix: Matrix4,
}

impl LightEntity {
    /// The light as shaders read it.
    pub fn raw(&self) -> (raw: PointLightRaw)
        ensures
            raw == PointLightRaw::packed(self.light, self.position, self.light_space_matrix),
    {
        PointLightRaw::new(&self.light, self.position, self.light_space_matrix)
    }
}

/// The directional light of a scene.
#[derive(Clone, Copy, Debug, PartialEq, Eq, Structural)]
pub struct SunEntity {
    pub light: DirectionalLight,
    /// Takes world space into the clip space of the light.
    pub light_space_matrix: Matrix4,
}

impl SunEntity {
    /// The light as shaders read it.
    pub fn raw(&self) -> (raw: DirectionalLightRaw)
        ensures
            raw == DirectionalLightRaw::packed(self.light, self.light_space_matrix),
    {
        DirectionalLightRaw::new(&self.light, self.light_space_matrix)
    }
}

/// A height map resident on the GPU: a grid mesh and its texture.
#[derive(Clone, Copy, Debug, PartialEq, Eq, Structural)]
pub struct HeightMap {
    /// Number of indices that one draw of the grid reads.
    pub number_of_indices: u32,
}

/// A water surface in the scene.
#[derive(Clone, Copy, Debug, PartialEq, Eq, Structural)]
pub struct Surface {
    pub height_map: HeightMap,
    pub model_matrix: Matrix4,
    /// Takes world space into the clip space of the environment map.
    pub environment_matrix: Matrix4,
}

/// What the user-interface toolkit wants drawn this frame.
#[derive(Debug)]
pub struct UiFrame {
    /// Width of the framebuffer in pixels.
    pub width: u32,
    /// Height of the framebuffer in pixels.
    pub height: u32,
    pub draw_lists: Vec<Vec<UiCommand>>,
}

/// The scene of one frame.
#[derive(Debug)]
pub struct Scene {
    pub camera: CameraUniform,
    /// The entity groups that carry a model, in query order.
    pub chunks: Vec<Chunk>,
    /// The entities that carry a point light, in query order.
    pub lights: Vec<LightEntity>,
    /// The directional light, if the scene has one.
    pub sun: Option<SunEntity>,
    pub surfaces: Vec<Surface>,
    pub ui: Option<UiFrame>,
}

} // verus!
