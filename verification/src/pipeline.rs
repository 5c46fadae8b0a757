//! What each pass asks of the GPU when it is built: its shaders, the buffers
//! and textures it binds, and its fixed-function state.

use vstd::prelude::*;
use crate::pass::PassKind;
use crate::shader::{ShaderLoadError, ShaderType};
use crate::textures::TextureFormat;

verus! {

#[derive(Clone, Copy, Debug, PartialEq, Eq, Structural)]
pub enum FrontFace {
    Ccw,
    Cw,
}

#[derive(Clone, Copy, Debug, PartialEq, Eq, Structural)]
pub enum CullMode {
    /// Both sides of a triangle are drawn.
    Off,
    Front,
    Back,
}

/// How triangles become fragments.
#[derive(Clone, Copy, Debug, PartialEq, Eq, Structural)]
pub enum Rasterization {
    /// What the backend does unless told otherwise.
    Default,
    /// Winding, culling and the bias that is added to every depth value.
    /// Slope scale and clamp are bit patterns of `f32` values.
    Custom { front_face: FrontFace, cull_mode: CullMode, depth_bias: i32, depth_bias_slope_scale: u32, depth_bias_clamp: u32 },
}

/// How a pass tests and writes depth.
#[derive(Clone, Copy, Debug, PartialEq, Eq, Structural)]
pub enum DepthState {
    /// The pass has no depth attachment.
    Off,
    /// What the backend does unless told otherwise.
    Default,
    /// Write depth where the new value is less than or equal to the old.
    LessEqual { format: TextureFormat },
}

/// The vertex buffers that a pass reads.
#[derive(Clone, Copy, Debug, PartialEq, Eq, Structural)]
pub enum VertexInput {
    /// The shader makes its vertices up.
    Nothing,
    /// Mesh vertices in slot 0, instance matrices in slot 1.
    MeshInstances,
    /// The grid of a height map.
    HeightMap,
    /// The vertices of the user interface.
    Ui,
}

/// The textures that a pass samples, in slot order.
#[derive(Clone, Copy, Debug, PartialEq, Eq, Structural)]
pub enum TextureInput {
    Nothing,
    /// Diffuse, specular and the shadow texture.
    MaterialAndShadow,
    Skybox,
    HeightMap,
    Ui,
}

/// The uniform that belongs to a pass alone.
#[derive(Clone, Copy, Debug, PartialEq, Eq, Structural)]
pub enum LocalUniform {
    Nothing,
    /// The point lights of the frame, read by the fragment stage.
    PointLights,
    /// One matrix, read by the vertex stage.
    Matrix,
}

/// What a pass asks of the GPU when it is built.
#[derive(Clone, Copy, Debug)]
pub struct PipelineDescriptor {
    pub vertex_shader: &'static str,
    pub fragment_shader: &'static str,
    pub vertex_input: VertexInput,
    pub textures: TextureInput,
    pub local_uniform: LocalUniform,
    /// Whether the pass reads the camera uniform that all passes share.
    pub camera: bool,
    /// The format of the color attachment, `None` for a pass that writes
    /// depth only.
    pub color_format: Option<TextureFormat>,
    pub depth: DepthState,
    pub rasterization: Rasterization,
}

/// Bit pattern of the `f32` value `2.0`.
pub const TWO: u32 = 0x4000_0000;

/// The pipeline of each pass. `color_format` is the format of the image that
/// is presented.
pub open spec fn pipeline_of(kind: PassKind, color_format: TextureFormat) -> PipelineDescriptor {
    match kind {
        PassKind::Shadow => PipelineDescriptor {
            vertex_shader: "src/shader_files/vs_shadow.shader",
            fragment_shader: "src/shader_files/fs_shadow.shader",
            vertex_input: VertexInput::MeshInstances,
            textures: TextureInput::Nothing,
            local_uniform: LocalUniform::Matrix,
            camera: false,
            color_format: None,
            depth: DepthState::LessEqual { format: TextureFormat::Depth32Float },
            rasterization: Rasterization::Custom {
                front_face: FrontFace::Ccw,
                cull_mode: CullMode::Front,
                depth_bias: 0,
                depth_bias_slope_scale: TWO,
                depth_bias_clamp: 0,
            },
        },
        PassKind::WaterEnvironment => PipelineDescriptor {
            vertex_shader: "src/shader_files/vs_watermap.shader",
            fragment_shader: "src/shader_files/fs_watermap.shader",
            vertex_input: VertexInput::MeshInstances,
            textures: TextureInput::Nothing,
            local_uniform: LocalUniform::Matrix,
            camera: false,
            color_format: Some(TextureFormat::Bgra8UnormSrgb),
            depth: DepthState::Off,
            rasterization: Rasterization::Default,
        },
        PassKind::Skybox => PipelineDescriptor {
            vertex_shader: "src/shader_files/vs_skybox.shader",
            fragment_shader: "src/shader_files/fs_skybox.shader",
            vertex_input: VertexInput::Nothing,
            textures: TextureInput::Skybox,
            local_uniform: LocalUniform::Nothing,
            camera: true,
            color_format: Some(color_format),
            depth: DepthState::Off,
            rasterization: Rasterization::Default,
        },
        PassKind::WaterSurface => PipelineDescriptor {
            vertex_shader: "src/shader_files/vs_watersurface.shader",
            fragment_shader: "src/shader_files/fs_watersurface.shader",
            vertex_input: VertexInput::HeightMap,
            textures: TextureInput::HeightMap,
            local_uniform: LocalUniform::Matrix,
            camera: true,
            color_format: Some(color_format),
            depth: DepthState::Default,
            rasterization: Rasterization::Custom {
                front_face: FrontFace::Ccw,
                cull_mode: CullMode::Off,
                depth_bias: 0,
                depth_bias_slope_scale: 0,
                depth_bias_clamp: 0,
            },
        },
        PassKind::Model => PipelineDescriptor {
            vertex_shader: "src/shader_files/vs_model.shader",
            fragment_shader: "src/shader_files/fs_model.shader",
            vertex_input: VertexInput::MeshInstances,
            textures: TextureInput::MaterialAndShadow,
            local_uniform: LocalUniform::PointLights,
            camera: true,
            color_format: Some(color_format),
            depth: DepthState::Default,
            rasterization: Rasterization::Default,
        },
        PassKind::LightObject => PipelineDescriptor {
            vertex_shader: "src/shader_files/vs_light.shader",
            fragment_shader: "src/shader_files/fs_light.shader",
            vertex_input: VertexInput::MeshInstances,
            textures: TextureInput::Nothing,
            local_uniform: LocalUniform::Nothing,
            camera: true,
            color_format: Some(color_format),
            depth: DepthState::Default,
            rasterization: Rasterization::Default,
        },
        PassKind::Ui => PipelineDescriptor {
            vertex_shader: "src/shader_files/vs_ui.shader",
            fragment_shader: "src/shader_files/fs_ui.shader",
            vertex_input: VertexInput::Ui,
            textures: TextureInput::Ui,
            local_uniform: LocalUniform::Matrix,
            camera: false,
            color_format: Some(color_format),
            depth: DepthState::Off,
            rasterization: Rasterization::Custom {
                front_face: FrontFace::Cw,
                cull_mode: CullMode::Off,
                depth_bias: 0,
                depth_bias_slope_scale: 0,
                depth_bias_clamp: 0,
            },
        },
    }
}

/// The pipeline of a pass.
pub fn pipeline(kind: PassKind, color_format: TextureFormat) -> (descriptor: PipelineDescriptor)
    ensures
        descriptor == pipeline_of(kind, color_format),
{
    let flat = Rasterization::Custom {
        front_face: FrontFace::Ccw,
        cull_mode: CullMode::Off,
        depth_bias: 0,
        depth_bias_slope_scale: 0,
        depth_bias_clamp: 0,
    };
    match kind {
        PassKind::Shadow => PipelineDescriptor {
            vertex_shader: "src/shader_files/vs_shadow.shader",
            fragment_shader: "src/shader_files/fs_shadow.shader",
            vertex_input: VertexInput::MeshInstances,
            textures: TextureInput::Nothing,
            local_uniform: LocalUniform::Matrix,
            camera: false,
            color_format: None,
            depth: DepthState::LessEqual { format: TextureFormat::Depth32Float },
            rasterization: Rasterization::Custom {
                front_face: FrontFace::Ccw,
                cull_mode: CullMode::Front,
                depth_bias: 0,
                depth_bias_slope_scale: TWO,
                depth_bias_clamp: 0,
            },
        },
        PassKind::WaterEnvironment => PipelineDescriptor {
            vertex_shader: "src/shader_files/vs_watermap.shader",
            fragment_shader: "src/shader_files/fs_watermap.shader",
            vertex_input: VertexInput::MeshInstances,
            textures: TextureInput::Nothing,
            local_uniform: LocalUniform::Matrix,
            camera: false,
            color_format: Some(TextureFormat::Bgra8UnormSrgb),
            depth: DepthState::Off,
            rasterization: Rasterization::Default,
        },
        PassKind::Skybox => PipelineDescriptor {
            vertex_shader: "src/shader_files/vs_skybox.shader",
            fragment_shader: "src/shader_files/fs_skybox.shader",
            vertex_input: VertexInput::Nothing,
            textures: TextureInput::Skybox,
            local_uniform: LocalUniform::Nothing,
            camera: true,
            color_format: Some(color_format),
            depth: DepthState::Off,
            rasterization: Rasterization::Default,
        },
        PassKind::WaterSurface => PipelineDescriptor {
            vertex_shader: "src/shader_files/vs_watersurface.shader",
            fragment_shader: "src/shader_files/fs_watersurface.shader",
            vertex_input: VertexInput::HeightMap,
            textures: TextureInput::HeightMap,
            local_uniform: LocalUniform::Matrix,
            camera: true,
            color_format: Some(color_format),
            depth: DepthState::Default,
            rasterization: flat,
        },
        PassKind::Model => PipelineDescriptor {
            vertex_shader: "src/shader_files/vs_model.shader",
            fragment_shader: "src/shader_files/fs_model.shader",
            vertex_input: VertexInput::MeshInstances,
            textures: TextureInput::MaterialAndShadow,
            local_uniform: LocalUniform::PointLights,
            camera: true,
            color_format: Some(color_format),
            depth: DepthState::Default,
            rasterization: Rasterization::Default,
        },
        PassKind::LightObject => PipelineDescriptor {
            vertex_shader: "src/shader_files/vs_light.shader",
            fragment_shader: "src/shader_files/fs_light.shader",
            vertex_input: VertexInput::MeshInstances,
            textures: TextureInput::Nothing,
            local_uniform: LocalUniform::Nothing,
            camera: true,
            color_format: Some(color_format),
            depth: DepthState::Default,
            rasterization: Rasterization::Default,
        },
        PassKind::Ui => PipelineDescriptor {
            vertex_shader: "src/shader_files/vs_ui.shader",
            fragment_shader: "src/shader_files/fs_ui.shader",
            vertex_input: VertexInput::Ui,
            textures: TextureInput::Ui,
            local_uniform: LocalUniform::Matrix,
            camera: false,
            color_format: Some(color_format),
            depth: DepthState::Off,
            rasterization: Rasterization::Custom {
                front_face: FrontFace::Cw,
                cull_mode: CullMode::Off,
                depth_bias: 0,
                depth_bias_slope_scale: 0,
                depth_bias_clamp: 0,
            },
        },
    }
}

/// The compiled shaders of one pass.
pub struct PassShaders {
    pub kind: PassKind,
    pub vertex: Vec<u32>,
    pub fragment: Vec<u32>,
}

/// Why the passes could not be built: the shader at `path`, which belongs
/// to pass `pass`, could not be loaded.
pub struct InitError {
    pub pass: PassKind,
    pub path: &'static str,
    pub error: ShaderLoadError,
}

/// The order in which the passes are built.
pub open spec fn construction_order() -> Seq<PassKind> {
    seq![
        PassKind::WaterEnvironment,
        PassKind::Shadow,
        PassKind::WaterSurface,
        PassKind::Model,
        PassKind::LightObject,
        PassKind::Skybox,
        PassKind::Ui,
    ]
}

/// That `load` can give `vertex` and `fragment` for the two shaders of a
/// pass.
pub open spec fn loaded_for<F: Fn(&'static str, ShaderType) -> Result<Vec<u32>, ShaderLoadError>>(
    load: F,
    kind: PassKind,
    format: TextureFormat,
    vertex: Vec<u32>,
    fragment: Vec<u32>,
) -> bool {
    &&& call_ensures(
        load,
        (pipeline_of(kind, format).vertex_shader, ShaderType::Vertex),
        Ok::<Vec<u32>, ShaderLoadError>(vertex),
    )
    &&& call_ensures(
        load,
        (pipeline_of(kind, format).fragment_shader, ShaderType::Fragment),
        Ok::<Vec<u32>, ShaderLoadError>(fragment),
    )
}

/// That `shaders` holds what `load` gave for the first `n` passes in
/// construction order.
pub open spec fn built<F: Fn(&'static str, ShaderType) -> Result<Vec<u32>, ShaderLoadError>>(
    load: F,
    format: TextureFormat,
    shaders: Seq<PassShaders>,
    n: int,
) -> bool {
    &&& shaders.len() == n
    &&& forall|k: int|
        0 <= k < n ==> (#[trigger] shaders[k]).kind == construction_order()[k] && loaded_for(
            load,
            construction_order()[k],
            format,
            shaders[k].vertex,
            shaders[k].fragment,
        )
}

/// That `error` is what `load` gave for a shader of pass number `at` in
/// construction order, after the shaders before it had loaded.
pub open spec fn failed_at<F: Fn(&'static str, ShaderType) -> Result<Vec<u32>, ShaderLoadError>>(
    load: F,
    format: TextureFormat,
    at: int,
    error: InitError,
) -> bool {
    let kind = construction_order()[at];
    let descriptor = pipeline_of(kind, format);
    &&& 0 <= at < construction_order().len()
    &&& error.pass == kind
    &&& exists|earlier: Seq<PassShaders>| #[trigger] built(load, format, earlier, at)
    &&& {
        ||| {
            &&& error.path == descriptor.vertex_shader
            &&& call_ensures(
                load,
                (descriptor.vertex_shader, ShaderType::Vertex),
                Err::<Vec<u32>, ShaderLoadError>(error.error),
            )
        }
        ||| {
            &&& error.path == descriptor.fragment_shader
            &&& exists|vertex: Vec<u32>| #[trigger]
                call_ensures(
                    load,
                    (descriptor.vertex_shader, ShaderType::Vertex),
                    Ok::<Vec<u32>, ShaderLoadError>(vertex),
                )
            &&& call_ensures(
                load,
                (descriptor.fragment_shader, ShaderType::Fragment),
                Err::<Vec<u32>, ShaderLoadError>(error.error),
            )
        }
    }
}

/// Loads the shaders of all passes in construction order, the vertex shader
/// of a pass before its fragment shader. The first shader that fails ends
/// the construction and is reported with its pass and its path.
pub fn load_shaders<F: Fn(&'static str, ShaderType) -> Result<Vec<u32>, ShaderLoadError>>(
    format: TextureFormat,
    load: F,
) -> (res: Result<Vec<PassShaders>, InitError>)
    requires
        forall|path: &'static str, shader_type: ShaderType| call_requires(load, (path, shader_type)),
    ensures
        match res {
            Ok(shaders) => built(load, format, shaders@, construction_order().len() as int),
            Err(error) => exists|at: int| #[trigger] failed_at(load, format, at, error),
        },
{
    let order = [
        PassKind::WaterEnvironment,
        PassKind::Shadow,
        PassKind::WaterSurface,
        PassKind::Model,
        PassKind::LightObject,
        PassKind::Skybox,
        PassKind::Ui,
    ];
    assert(order@ =~= construction_order());
    let mut shaders: Vec<PassShaders> = Vec::new();
    let mut k: usize = 0;
    while k < 7
        invariant
            k <= 7,
            order@ == construction_order(),
            built(load, format, shaders@, k as int),
            forall|path: &'static str, shader_type: ShaderType| call_requires(load, (path, shader_type)),
        decreases 7 - k,
    {
        let kind = order[k];
        let descriptor = pipeline(kind, format);
        let vertex = match load(descriptor.vertex_shader, ShaderType::Vertex) {
            Ok(code) => code,
            Err(error) => {
                let failure = InitError { pass: kind, path: descriptor.vertex_shader, error };
                assert(failed_at(load, format, k as int, failure));
                return Err(failure);
            },
        };
        let fragment = match load(descriptor.fragment_shader, ShaderType::Fragment) {
            Ok(code) => code,
            Err(error) => {
                let failure = InitError { pass: kind, path: descriptor.fragment_shader, error };
                assert(failed_at(load, format, k as int, failure));
                return Err(failure);
            },
        };
        shaders.push(PassShaders { kind, vertex, fragment });
        k = k + 1;
    }
    Ok(shaders)
}

} // verus!
