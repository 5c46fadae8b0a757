//! The textures of the renderer: what each kind looks like to a shader and
//! how it is allocated.

use vstd::prelude::*;
use crate::point_light::MAX_POINT_LIGHTS;
use crate::uniform::ShaderStage;

verus! {

#[derive(Clone, Copy, Debug, PartialEq, Eq, Structural)]
pub enum TextureFormat {
    Depth32Float,
    Bgra8UnormSrgb,
    Rgba8Unorm,
}

/// How a shader addresses a texture.
#[derive(Clone, Copy, Debug, PartialEq, Eq, Structural)]
pub enum ViewDimension {
    D2,
    D2Array,
    Cube,
    CubeArray,
}

#[derive(Clone, Copy, Debug, PartialEq, Eq, Structural)]
pub enum FilterMode {
    Nearest,
    Linear,
}

/// What a texture is used for.
#[derive(Clone, Copy, Debug, PartialEq, Eq, Structural)]
pub struct TextureUsage {
    pub output_attachment: bool,
    pub sampled: bool,
    pub copy_dst: bool,
}

/// Width and height in texels, depth in layers.
#[derive(Clone, Copy, Debug, PartialEq, Eq, Structural)]
pub struct Extent3d {
    pub width: u32,
    pub height: u32,
    pub depth: u32,
}

/// A two-dimensional texture with one mip level and one sample per texel.
#[derive(Clone, Copy, Debug, PartialEq, Eq, Structural)]
pub struct TextureDescriptor {
    pub size: Extent3d,
    pub format: TextureFormat,
    pub usage: TextureUsage,
}

/// A sampler that clamps at the edges.
#[derive(Clone, Copy, Debug, PartialEq, Eq, Structural)]
pub struct SamplerDescriptor {
    pub mag_filter: FilterMode,
    pub min_filter: FilterMode,
    pub mipmap_filter: FilterMode,
    /// Whether the sampler compares against the stored depth with "less or
    /// equal".
    pub compare: bool,
}

/// The two bindings of a texture: the texture in slot 0, its sampler in
/// slot 1, both visible to one shader stage.
#[derive(Clone, Copy, Debug, PartialEq, Eq, Structural)]
pub struct TextureLayout {
    pub visibility: ShaderStage,
    pub dimension: ViewDimension,
    /// Whether the sampler in slot 1 is a comparison sampler.
    pub comparison: bool,
}

/// How a kind of texture looks to a shader.
pub trait TextureShaderLayout {
    spec fn layout() -> TextureLayout;

    fn get_layout() -> (layout: TextureLayout)
        ensures
            layout == Self::layout(),
    ;
}

/// A kind of texture that the renderer allocates itself, in a fixed size.
pub trait Texture: TextureShaderLayout {
    spec fn allocation() -> (TextureDescriptor, SamplerDescriptor);

    fn allocate_texture() -> (allocation: (TextureDescriptor, SamplerDescriptor))
        ensures
            allocation == Self::allocation(),
    ;
}

/// A sampler for depth comparison without filtering.
pub open spec fn depth_sampler() -> SamplerDescriptor {
    SamplerDescriptor {
        mag_filter: FilterMode::Nearest,
        min_filter: FilterMode::Nearest,
        mipmap_filter: FilterMode::Nearest,
        compare: true,
    }
}

/// The usage of a texture that one pass draws into and another samples.
pub open spec fn drawn_and_sampled() -> TextureUsage {
    TextureUsage { output_attachment: true, sampled: true, copy_dst: false }
}

/// The usage of a texture that is filled once and then sampled.
pub open spec fn filled_and_sampled() -> TextureUsage {
    TextureUsage { output_attachment: false, sampled: true, copy_dst: true }
}

/// The shadow texture: an array with one layer of depth for each point
/// light.
pub struct ShadowTexture;

impl TextureShaderLayout for ShadowTexture {
    open spec fn layout() -> TextureLayout {
        TextureLayout { visibility: ShaderStage::Fragment, dimension: ViewDimension::D2Array, comparison: true }
    }

    fn get_layout() -> (layout: TextureLayout) {
        TextureLayout { visibility: ShaderStage::Fragment, dimension: ViewDimension::D2Array, comparison: true }
    }
}

impl Texture for ShadowTexture {
    open spec fn allocation() -> (TextureDescriptor, SamplerDescriptor) {
        (
            TextureDescriptor {
                size: Extent3d { width: 2048, height: 2048, depth: MAX_POINT_LIGHTS },
                format: TextureFormat::Depth32Float,
                usage: drawn_and_sampled(),
            },
            depth_sampler(),
        )
    }

    fn allocate_texture() -> (allocation: (TextureDescriptor, SamplerDescriptor)) {
        (
            TextureDescriptor {
                size: Extent3d { width: 2048, height: 2048, depth: MAX_POINT_LIGHTS },
                format: TextureFormat::Depth32Float,
                usage: TextureUsage { output_attachment: true, sampled: true, copy_dst: false },
            },
            SamplerDescriptor {
                mag_filter: FilterMode::Nearest,
                min_filter: FilterMode::Nearest,
                mipmap_filter: FilterMode::Nearest,
                compare: true,
            },
        )
    }
}

/// Which part of a texture a view shows.
#[derive(Clone, Copy, Debug, PartialEq, Eq, Structural)]
pub struct TextureViewDescriptor {
    pub format: TextureFormat,
    pub dimension: ViewDimension,
    /// Whether the view shows the depth of the texture and nothing else.
    pub depth_only: bool,
    pub base_mip_level: u32,
    pub level_count: u32,
    pub base_array_layer: u32,
    pub array_layer_count: u32,
}

impl ShadowTexture {
    /// The view of one layer of the shadow texture.
    pub open spec fn layer_view_of(layer: u32) -> TextureViewDescriptor {
        TextureViewDescriptor {
            format: TextureFormat::Depth32Float,
            dimension: ViewDimension::D2,
            depth_only: true,
            base_mip_level: 0,
            level_count: 1,
            base_array_layer: layer,
            array_layer_count: 1,
        }
    }

    /// The view that a light bound to `layer` draws its shadow into: that
    /// layer alone, flat, and its depth only.
    pub fn layer_view(layer: u32) -> (view: TextureViewDescriptor)
        requires
            layer < MAX_POINT_LIGHTS,
        ensures
            view == Self::layer_view_of(layer),
    {
        TextureViewDescriptor {
            format: TextureFormat::Depth32Float,
            dimension: ViewDimension::D2,
            depth_only: true,
            base_mip_level: 0,
            level_count: 1,
            base_array_layer: layer,
            array_layer_count: 1,
        }
    }
}

/// The shadow texture for lights that shine in all directions: an array of
/// cubes.
pub struct ShadowCubeTexture;

impl TextureShaderLayout for ShadowCubeTexture {
    open spec fn layout() -> TextureLayout {
        TextureLayout { visibility: ShaderStage::Fragment, dimension: ViewDimension::CubeArray, comparison: true }
    }

    fn get_layout() -> (layout: TextureLayout) {
        TextureLayout { visibility: ShaderStage::Fragment, dimension: ViewDimension::CubeArray, comparison: true }
    }
}

impl Texture for ShadowCubeTexture {
    open spec fn allocation() -> (TextureDescriptor, SamplerDescriptor) {
        (
            TextureDescriptor {
                size: Extent3d { width: 1024, height: 1024, depth: MAX_POINT_LIGHTS },
                format: TextureFormat::Depth32Float,
                usage: drawn_and_sampled(),
            },
            depth_sampler(),
        )
    }

    fn allocate_texture() -> (allocation: (TextureDescriptor, SamplerDescriptor)) {
        (
            TextureDescriptor {
                size: Extent3d { width: 1024, height: 1024, depth: MAX_POINT_LIGHTS },
                format: TextureFormat::Depth32Float,
                usage: TextureUsage { output_attachment: true, sampled: true, copy_dst: false },
            },
            SamplerDescriptor {
                mag_filter: FilterMode::Nearest,
                min_filter: FilterMode::Nearest,
                mipmap_filter: FilterMode::Nearest,
                compare: true,
            },
        )
    }
}

/// The environment map of the water, used to render caustics.
pub struct WaterEnviornmentMap;

impl TextureShaderLayout for WaterEnviornmentMap {
    open spec fn layout() -> TextureLayout {
        TextureLayout { visibility: ShaderStage::Fragment, dimension: ViewDimension::D2, comparison: true }
    }

    fn get_layout() -> (layout: TextureLayout) {
        TextureLayout { visibility: ShaderStage::Fragment, dimension: ViewDimension::D2, comparison: true }
    }
}

impl Texture for WaterEnviornmentMap {
    open spec fn allocation() -> (TextureDescriptor, SamplerDescriptor) {
        (
            TextureDescriptor {
                size: Extent3d { width: 512, height: 512, depth: 1 },
                format: TextureFormat::Bgra8UnormSrgb,
                usage: drawn_and_sampled(),
            },
            depth_sampler(),
        )
    }

    fn allocate_texture() -> (allocation: (TextureDescriptor, SamplerDescriptor)) {
        (
            TextureDescriptor {
                size: Extent3d { width: 512, height: 512, depth: 1 },
                format: TextureFormat::Bgra8UnormSrgb,
                usage: TextureUsage { output_attachment: true, sampled: true, copy_dst: false },
            },
            SamplerDescriptor {
                mag_filter: FilterMode::Nearest,
                min_filter: FilterMode::Nearest,
                mipmap_filter: FilterMode::Nearest,
                compare: true,
            },
        )
    }
}

/// Number of images that make a skybox.
pub const REQUIRED_SKYBOX_TEXTURES: u32 = 6;

/// The skybox: one cube of six images.
pub struct SkyboxTexture;

impl TextureShaderLayout for SkyboxTexture {
    open spec fn layout() -> TextureLayout {
        TextureLayout { visibility: ShaderStage::Fragment, dimension: ViewDimension::Cube, comparison: true }
    }

    fn get_layout() -> (layout: TextureLayout) {
        TextureLayout { visibility: ShaderStage::Fragment, dimension: ViewDimension::Cube, comparison: true }
    }
}

impl SkyboxTexture {
    /// The texture and the sampler of a skybox whose images are `width` by
    /// `height` texels.
    pub fn create_texture_data(width: u32, height: u32) -> (allocation: (TextureDescriptor, SamplerDescriptor))
        ensures
            allocation.0 == (TextureDescriptor {
                size: Extent3d { width, height, depth: REQUIRED_SKYBOX_TEXTURES },
                format: TextureFormat::Rgba8Unorm,
                usage: filled_and_sampled(),
            }),
            allocation.1 == (SamplerDescriptor {
                mag_filter: FilterMode::Nearest,
                min_filter: FilterMode::Linear,
                mipmap_filter: FilterMode::Nearest,
                compare: false,
            }),
    {
        (
            TextureDescriptor {
                size: Extent3d { width, height, depth: REQUIRED_SKYBOX_TEXTURES },
                format: TextureFormat::Rgba8Unorm,
                usage: TextureUsage { output_attachment: false, sampled: true, copy_dst: true },
            },
            SamplerDescriptor {
                mag_filter: FilterMode::Nearest,
                min_filter: FilterMode::Linear,
                mipmap_filter: FilterMode::Nearest,
                compare: false,
            },
        )
    }
}

/// A texture of the user interface: the font atlas or a registered image.
pub struct UiTexture;

impl TextureShaderLayout for UiTexture {
    open spec fn layout() -> TextureLayout {
        TextureLayout { visibility: ShaderStage::Fragment, dimension: ViewDimension::D2, comparison: false }
    }

    fn get_layout() -> (layout: TextureLayout) {
        TextureLayout { visibility: ShaderStage::Fragment, dimension: ViewDimension::D2, comparison: false }
    }
}

impl UiTexture {
    /// The texture and the sampler of a font atlas of `width` by `height`
    /// texels.
    pub fn font_atlas(width: u32, height: u32) -> (allocation: (TextureDescriptor, SamplerDescriptor))
        ensures
            allocation.0 == (TextureDescriptor {
                size: Extent3d { width, height, depth: 1 },
                format: TextureFormat::Bgra8UnormSrgb,
                usage: filled_and_sampled(),
            }),
            allocation.1 == (SamplerDescriptor {
                mag_filter: FilterMode::Linear,
                min_filter: FilterMode::Linear,
                mipmap_filter: FilterMode::Linear,
                compare: false,
            }),
    {
        (
            TextureDescriptor {
                size: Extent3d { width, height, depth: 1 },
                format: TextureFormat::Bgra8UnormSrgb,
                usage: TextureUsage { output_attachment: false, sampled: true, copy_dst: true },
            },
            SamplerDescriptor {
                mag_filter: FilterMode::Linear,
                min_filter: FilterMode::Linear,
                mipmap_filter: FilterMode::Linear,
                compare: false,
            },
        )
    }
}

/// The depth attachment that the main sequence shares, for a window of the
/// given size.
pub fn create_depth_texture(width: u32, height: u32) -> (descriptor: TextureDescriptor)
    ensures
        descriptor == (TextureDescriptor {
            size: Extent3d { width, height, depth: 1 },
            format: TextureFormat::Depth32Float,
            usage: TextureUsage { output_attachment: true, sampled: false, copy_dst: false },
        }),
{
    TextureDescriptor {
        size: Extent3d { width, height, depth: 1 },
        format: TextureFormat::Depth32Float,
        usage: TextureUsage { output_attachment: true, sampled: false, copy_dst: false },
    }
}

} // verus!
