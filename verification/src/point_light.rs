//! Point lights: their parameters, the block that shaders read, the uniform
//! that gathers the lights of a frame, and the shadow layer of each light.

use vstd::prelude::*;
use crate::lighting::{strength_values, Strength, ONE};
use crate::uniform::{GpuData, LightSpaceMatrix};
use crate::words::{Matrix4, Vector3};

verus! {

/// The number of point lights that one frame can show, and the number of
/// layers of the shadow texture.
pub const MAX_POINT_LIGHTS: u32 = 16;

/// Words in one [`PointLightRaw`].
pub const POINT_LIGHT_WORDS: usize = 36;

/// Words in one [`PointLightsUniforms`]: a header of four and sixteen lights.
pub const POINT_LIGHTS_UNIFORM_WORDS: usize = 580;

/// Whether a light has its layer of the shadow texture.
///
/// A light starts `Unassigned` and casts no shadow. It becomes `Bound` once
/// and stays bound to the same layer for as long as it lives.
#[derive(Clone, Copy, Debug, PartialEq, Eq, Structural)]
pub enum ShadowBinding {
    Unassigned,
    Bound { layer: u32 },
}

/// The parameters of a point light. Its position is that of the entity that
/// carries it.
#[derive(Clone, Copy, Debug, PartialEq, Eq, Structural)]
pub struct PointLight {
    pub ambient: Vector3,
    pub specular: Vector3,
    pub diffuse: Vector3,
    pub constant: u32,
    pub linear: u32,
    pub quadratic: u32,
    pub target_view: ShadowBinding,
}

/// The light that [`PointLight::default`] returns: white, with a weak ambient
/// term, the medium attenuation preset and no shadow layer.
pub open spec fn default_point_light() -> PointLight {
    PointLight {
        ambient: Vector3 { x: 0x3C23_D70A, y: 0x3C23_D70A, z: 0x3C23_D70A },
        specular: Vector3 { x: ONE, y: ONE, z: ONE },
        diffuse: Vector3 { x: ONE, y: ONE, z: ONE },
        constant: strength_values(Strength::Medium).0,
        linear: strength_values(Strength::Medium).1,
        quadratic: strength_values(Strength::Medium).2,
        target_view: ShadowBinding::Unassigned,
    }
}

impl Default for PointLight {
    fn default() -> (light: PointLight)
        ensures
            light == default_point_light(),
    {
        let (constant, linear, quadratic) = Strength::Medium.get_values();
        PointLight {
            ambient: Vector3 { x: 0x3C23_D70A, y: 0x3C23_D70A, z: 0x3C23_D70A },
            specular: Vector3 { x: ONE, y: ONE, z: ONE },
            diffuse: Vector3 { x: ONE, y: ONE, z: ONE },
            constant,
            linear,
            quadratic,
            target_view: ShadowBinding::Unassigned,
        }
    }
}

impl PointLight {
    pub fn set_ambient(self, ambient: Vector3) -> (light: PointLight)
        ensures
            light == (PointLight { ambient, ..self }),
    {
        PointLight { ambient, ..self }
    }

    pub fn set_specular(self, specular: Vector3) -> (light: PointLight)
        ensures
            light == (PointLight { specular, ..self }),
    {
        PointLight { specular, ..self }
    }

    pub fn set_diffuse(self, diffuse: Vector3) -> (light: PointLight)
        ensures
            light == (PointLight { diffuse, ..self }),
    {
        PointLight { diffuse, ..self }
    }

    /// Replaces the three attenuation terms by those of a preset.
    pub fn set_strength(self, strength: Strength) -> (light: PointLight)
        ensures
            light == (PointLight {
                constant: strength_values(strength).0,
                linear: strength_values(strength).1,
                quadratic: strength_values(strength).2,
                ..self
            }),
    {
        let (constant, linear, quadratic) = strength.get_values();
        PointLight { constant, linear, quadratic, ..self }
    }
}

/// A point light as shaders read it: 36 words, every vector on a boundary of
/// four words.
#[derive(Clone, Copy, Debug, PartialEq, Eq, Structural)]
pub struct PointLightRaw {
    pub position: Vector3,
    pub _pad: u32,
    pub ambient: Vector3,
    pub _pad1: u32,
    pub specular: Vector3,
    pub _pad2: u32,
    pub diffuse: Vector3,
    pub constant: u32,
    pub linear: u32,
    pub quadratic: u32,
    pub _pad3: u32,
    pub _pad4: u32,
    pub light_space_matrix: Matrix4,
}

impl PointLightRaw {
    /// The block whose 36 words are zero.
    pub open spec fn spec_zero() -> PointLightRaw {
        PointLightRaw {
            position: Vector3::spec_zero(),
            _pad: 0,
            ambient: Vector3::spec_zero(),
            _pad1: 0,
            specular: Vector3::spec_zero(),
            _pad2: 0,
            diffuse: Vector3::spec_zero(),
            constant: 0,
            linear: 0,
            quadratic: 0,
            _pad3: 0,
            _pad4: 0,
            light_space_matrix: Matrix4::spec_zero(),
        }
    }

    #[verifier::when_used_as_spec(spec_zero)]
    pub fn zero() -> (raw: PointLightRaw)
        ensures
            raw == Self::spec_zero(),
    {
        PointLightRaw {
            position: Vector3::zero(),
            _pad: 0,
            ambient: Vector3::zero(),
            _pad1: 0,
            specular: Vector3::zero(),
            _pad2: 0,
            diffuse: Vector3::zero(),
            constant: 0,
            linear: 0,
            quadratic: 0,
            _pad3: 0,
            _pad4: 0,
            light_space_matrix: Matrix4::zero(),
        }
    }

    /// The block of `light` at `position`, with the matrix that takes world
    /// space into the clip space of the light. Padding words are zero.
    pub open spec fn packed(light: PointLight, position: Vector3, light_space_matrix: Matrix4) -> PointLightRaw {
        PointLightRaw {
            position,
            _pad: 0,
            ambient: light.ambient,
            _pad1: 0,
            specular: light.specular,
            _pad2: 0,
            diffuse: light.diffuse,
            constant: light.constant,
            linear: light.linear,
            quadratic: light.quadratic,
            _pad3: 0,
            _pad4: 0,
            light_space_matrix,
        }
    }

    /// Packs a light for the shaders.
    pub fn new(light: &PointLight, position: Vector3, light_space_matrix: Matrix4) -> (raw: PointLightRaw)
        ensures
            raw == Self::packed(*light, position, light_space_matrix),
    {
        PointLightRaw {
            position,
            _pad: 0,
            ambient: light.ambient,
            _pad1: 0,
            specular: light.specular,
            _pad2: 0,
            diffuse: light.diffuse,
            constant: light.constant,
            linear: light.linear,
            quadratic: light.quadratic,
            _pad3: 0,
            _pad4: 0,
            light_space_matrix,
        }
    }

    /// The private uniform of the shadow pass for this light.
    pub fn light_space(&self) -> (uniform: LightSpaceMatrix)
        ensures
            uniform.light_space_matrix == self.light_space_matrix,
    {
        LightSpaceMatrix { light_space_matrix: self.light_space_matrix }
    }

    /// Appends the 36 words of the block to `out`.
    pub fn push_words(&self, out: &mut Vec<u32>)
        ensures
            final(out)@ == old(out)@ + self.words(),
            self.words().len() == 36,
    {
        self.position.push_words(out);
        out.push(self._pad);
        self.ambient.push_words(out);
        out.push(self._pad1);
        self.specular.push_words(out);
        out.push(self._pad2);
        self.diffuse.push_words(out);
        out.push(self.constant);
        out.push(self.linear);
        out.push(self.quadratic);
        out.push(self._pad3);
        out.push(self._pad4);
        self.light_space_matrix.push_words(out);
        assert(out@ =~= old(out)@ + self.words());
    }
}

impl GpuData for PointLightRaw {
    open spec fn words(&self) -> Seq<u32> {
        self.position.words() + seq![self._pad] + self.ambient.words() + seq![self._pad1]
            + self.specular.words() + seq![self._pad2] + self.diffuse.words() + seq![
            self.constant,
            self.linear,
            self.quadratic,
            self._pad3,
            self._pad4,
        ] + self.light_space_matrix.words()
    }

    open spec fn word_count() -> nat {
        36
    }

    proof fn lemma_word_count(&self) {
    }

    fn size() -> (bytes: u64) {
        144
    }

    fn to_words(&self) -> (words: Vec<u32>) {
        let mut words: Vec<u32> = Vec::new();
        self.push_words(&mut words);
        assert(words@ =~= self.words());
        words
    }
}

/// Every word of the zero block is zero.
pub proof fn lemma_zero_block_words()
    ensures
        PointLightRaw::spec_zero().words().len() == 36,
        forall|i: int| 0 <= i < 36 ==> PointLightRaw::spec_zero().words()[i] == 0,
{
}

/// The uniform that carries the point lights of a frame.
#[derive(Clone, Copy, Debug)]
pub struct PointLightsUniforms {
    /// Number of slots of `lights` that shaders may read.
    pub lights_used: i32,
    /// Fills the header up to four words.
    pub _pad: Vector3,
    pub lights: [PointLightRaw; 16],
}

impl PointLightsUniforms {
    /// The light clamp: of `lights`, the first sixteen fill the slots in
    /// order; what is left of the slots is zero; `lights_used` counts the
    /// filled slots.
    pub open spec fn gathers(self, lights: Seq<PointLightRaw>) -> bool {
        &&& self.lights_used == if lights.len() <= MAX_POINT_LIGHTS {
            lights.len() as int
        } else {
            MAX_POINT_LIGHTS as int
        }
        &&& self._pad == Vector3::spec_zero()
        &&& forall|i: int| 0 <= i < self.lights_used ==> #[trigger] self.lights@[i] == lights[i]
        &&& forall|i: int|
            self.lights_used <= i < MAX_POINT_LIGHTS ==> #[trigger] self.lights@[i]
                == PointLightRaw::spec_zero()
    }

    /// Gathers the point lights of a frame. Lights past the sixteenth are
    /// dropped on purpose: they do not show, and nothing overflows.
    pub fn gather(lights: &Vec<PointLightRaw>) -> (uniform: PointLightsUniforms)
        ensures
            uniform.gathers(lights@),
    {
        let empty = PointLightRaw::zero();
        let mut slots: [PointLightRaw; 16] = [empty; 16];
        assert(forall|i: int| 0 <= i < 16 ==> #[trigger] slots@[i] == PointLightRaw::spec_zero()) by {
            vstd::array::axiom_spec_array_fill_for_copy_type::<PointLightRaw, 16>(empty);
        }
        let mut used: usize = 0;
        while used < lights.len() && used < 16
            invariant
                used <= lights@.len(),
                used <= 16,
                forall|i: int| 0 <= i < used ==> #[trigger] slots@[i] == lights@[i],
                forall|i: int| used <= i < 16 ==> #[trigger] slots@[i] == PointLightRaw::spec_zero(),
            decreases 16 - used,
        {
            slots[used] = lights[used];
            used = used + 1;
        }
        PointLightsUniforms { lights_used: used as i32, _pad: Vector3::zero(), lights: slots }
    }
}

impl GpuData for PointLightsUniforms {
    open spec fn words(&self) -> Seq<u32> {
        Seq::new(
            580,
            |i: int|
                if i == 0 {
                    self.lights_used as u32
                } else if i < 4 {
                    self._pad.words()[i - 1]
                } else {
                    self.lights@[(i - 4) / 36].words()[(i - 4) % 36]
                },
        )
    }

    open spec fn word_count() -> nat {
        580
    }

    proof fn lemma_word_count(&self) {
    }

    fn size() -> (bytes: u64) {
        2320
    }

    fn to_words(&self) -> (words: Vec<u32>) {
        let mut words: Vec<u32> = Vec::new();
        words.push(self.lights_used as u32);
        self._pad.push_words(&mut words);
        let mut k: usize = 0;
        while k < 16
            invariant
                k <= 16,
                words@.len() == 4 + 36 * k,
                forall|i: int| 0 <= i < 4 + 36 * k ==> #[trigger] words@[i] == self.words()[i],
            decreases 16 - k,
        {
            self.lights[k].push_words(&mut words);
            k = k + 1;
        }
        assert(words@ =~= self.words());
        words
    }
}

} // verus!
