//! The directional light: the one light of a scene that has no position.

use vstd::prelude::*;
use crate::lighting::ONE;
use crate::point_light::{PointLight, ShadowBinding};
use crate::uniform::GpuData;
use crate::words::{Matrix4, Vector3};

verus! {

/// Bit pattern of the `f32` value `-1.0`.
pub const MINUS_ONE: u32 = 0xBF80_0000;

/// Something that may cast a shadow.
pub trait Light {
    /// The binding of the light, as a value.
    spec fn binding(&self) -> ShadowBinding;

    /// Whether the light has its layer of the shadow texture.
    fn get_target_view(&self) -> (view: ShadowBinding)
        ensures
            view == self.binding(),
    ;
}

/// The parameters of a directional light.
#[derive(Clone, Copy, Debug, PartialEq, Eq, Structural)]
pub struct DirectionalLight {
    pub ambient: Vector3,
    pub specular: Vector3,
    pub direction: Vector3,
    pub diffuse: Vector3,
    pub target_view: ShadowBinding,
}

/// The light that [`DirectionalLight::default`] returns: white, shining
/// straight down.
pub open spec fn default_directional_light() -> DirectionalLight {
    DirectionalLight {
        ambient: Vector3 { x: 0x3C23_D70A, y: 0x3C23_D70A, z: 0x3C23_D70A },
        specular: Vector3 { x: ONE, y: ONE, z: ONE },
        direction: Vector3 { x: 0, y: MINUS_ONE, z: 0 },
        diffuse: Vector3 { x: ONE, y: ONE, z: ONE },
        target_view: ShadowBinding::Unassigned,
    }
}

impl Default for DirectionalLight {
    fn default() -> (light: DirectionalLight)
        ensures
            light == default_directional_light(),
    {
        DirectionalLight {
            ambient: Vector3 { x: 0x3C23_D70A, y: 0x3C23_D70A, z: 0x3C23_D70A },
            specular: Vector3 { x: ONE, y: ONE, z: ONE },
            direction: Vector3 { x: 0, y: MINUS_ONE, z: 0 },
            diffuse: Vector3 { x: ONE, y: ONE, z: ONE },
            target_view: ShadowBinding::Unassigned,
        }
    }
}

impl DirectionalLight {
    pub fn set_direction(self, direction: Vector3) -> (light: DirectionalLight)
        ensures
            light == (DirectionalLight { direction, ..self }),
    {
        DirectionalLight { direction, ..self }
    }

    pub fn set_ambient(self, ambient: Vector3) -> (light: DirectionalLight)
        ensures
            light == (DirectionalLight { ambient, ..self }),
    {
        DirectionalLight { ambient, ..self }
    }

    pub fn set_specular(self, specular: Vector3) -> (light: DirectionalLight)
        ensures
            light == (DirectionalLight { specular, ..self }),
    {
        DirectionalLight { specular, ..self }
    }

    pub fn set_diffuse(self, diffuse: Vector3) -> (light: DirectionalLight)
        ensures
            light == (DirectionalLight { diffuse, ..self }),
    {
        DirectionalLight { diffuse, ..self }
    }
}

impl Light for DirectionalLight {
    open spec fn binding(&self) -> ShadowBinding {
        self.target_view
    }

    fn get_target_view(&self) -> (view: ShadowBinding) {
        self.target_view
    }
}

impl Light for PointLight {
    open spec fn binding(&self) -> ShadowBinding {
        self.target_view
    }

    fn get_target_view(&self) -> (view: ShadowBinding) {
        self.target_view
    }
}

/// A directional light as shaders read it: 32 words, every vector on a
/// boundary of four words.
#[derive(Clone, Copy, Debug, PartialEq, Eq, Structural)]
pub struct DirectionalLightRaw {
    pub ambient: Vector3,
    pub _pad1: u32,
    pub specular: Vector3,
    pub _pad2: u32,
    pub diffuse: Vector3,
    pub _pad3: u32,
    pub direction: Vector3,
    pub _pad4: u32,
    pub light_space_matrix: Matrix4,
}

impl DirectionalLightRaw {
    /// The block of `light`, with the matrix that takes world space into the
    /// clip space of the light. Padding words are zero.
    pub open spec fn packed(light: DirectionalLight, light_space_matrix: Matrix4) -> DirectionalLightRaw {
        DirectionalLightRaw {
            ambient: light.ambient,
            _pad1: 0,
            specular: light.specular,
            _pad2: 0,
            diffuse: light.diffuse,
            _pad3: 0,
            direction: light.direction,
            _pad4: 0,
            light_space_matrix,
        }
    }

    /// Packs a light for the shaders.
    pub fn new(light: &DirectionalLight, light_space_matrix: Matrix4) -> (raw: DirectionalLightRaw)
        ensures
            raw == Self::packed(*light, light_space_matrix),
    {
        DirectionalLightRaw {
            ambient: light.ambient,
            _pad1: 0,
            specular: light.specular,
            _pad2: 0,
            diffuse: light.diffuse,
            _pad3: 0,
            direction: light.direction,
            _pad4: 0,
            light_space_matrix,
        }
    }
}

impl GpuData for DirectionalLightRaw {
    open spec fn words(&self) -> Seq<u32> {
        self.ambient.words() + seq![self._pad1] + self.specular.words() + seq![self._pad2]
            + self.diffuse.words() + seq![self._pad3] + self.direction.words() + seq![self._pad4]
            + self.light_space_matrix.words()
    }

    open spec fn word_count() -> nat {
        32
    }

    proof fn lemma_word_count(&self) {
    }

    fn size() -> (bytes: u64) {
        128
    }

    fn to_words(&self) -> (words: Vec<u32>) {
        let mut words: Vec<u32> = Vec::new();
        self.ambient.push_words(&mut words);
        words.push(self._pad1);
        self.specular.push_words(&mut words);
        words.push(self._pad2);
        self.diffuse.push_words(&mut words);
        words.push(self._pad3);
        self.direction.push_words(&mut words);
        words.push(self._pad4);
        self.light_space_matrix.push_words(&mut words);
        assert(words@ =~= self.words());
        words
    }
}

} // verus!
