use smol_engine::heightmap::{grid_indices, HeightMapVertex, HEIGHT_SEGMENTS, WIDTH_SEGMENTS};
use smol_engine::pass::PassKind;
use smol_engine::pipeline::{load_shaders, pipeline, CullMode, DepthState, FrontFace, LocalUniform, Rasterization, TextureInput, VertexInput};
use smol_engine::scene::HeightMap;
use smol_engine::shader::{ShaderLoadError, ShaderType};
use smol_engine::textures::TextureFormat;
use smol_engine::ui::UiVertex;
use smol_engine::vertex::{VertexAttributeDescriptor, VertexBuffer, VertexFormat};

#[test]
fn a_grid_of_two_by_one_cells() {
    assert_eq!(grid_indices(2, 1), vec![0, 3, 1, 3, 4, 1, 1, 4, 2, 4, 5, 2]);
}

#[test]
fn a_grid_of_one_by_two_cells() {
    assert_eq!(grid_indices(1, 2), vec![0, 2, 1, 2, 3, 1, 2, 4, 3, 4, 5, 3]);
}

#[test]
fn a_grid_without_cells_has_no_indices() {
    assert!(grid_indices(0, 7).is_empty());
    assert!(grid_indices(7, 0).is_empty());
    let (height_map, indices) = HeightMap::load(0, 0).unwrap();
    assert_eq!(height_map.number_of_indices, 0);
    assert!(indices.is_empty());
}

#[test]
fn the_usual_height_map_has_512_by_512_cells() {
    let (height_map, indices) = HeightMap::load(WIDTH_SEGMENTS, HEIGHT_SEGMENTS).unwrap();
    assert_eq!(height_map.number_of_indices, 6 * 512 * 512);
    assert_eq!(indices.len(), 6 * 512 * 512);
    assert_eq!(*indices.iter().max().unwrap(), 513 * 513 - 1);
    let cell = 6 * (3 * 512 + 5);
    assert_eq!(
        &indices[cell..cell + 6],
        &[5 + 513 * 3, 5 + 513 * 4, 6 + 513 * 3, 5 + 513 * 4, 6 + 513 * 4, 6 + 513 * 3]
    );
}

#[test]
fn a_grid_with_too_many_indices_is_refused() {
    assert!(HeightMap::load(40000, 40000).is_none());
    assert!(HeightMap::load(26755, 26755).is_none());
    assert!(HeightMap::load(65535, 65535).is_none());
    assert_eq!(HeightMap::load(300, 2).unwrap().0.number_of_indices, 3600);
}

#[test]
fn grid_and_interface_vertices_have_their_layouts() {
    assert_eq!(
        HeightMapVertex::get_attributes(),
        vec![VertexAttributeDescriptor { offset: 0, format: VertexFormat::Float3, shader_location: 0 }]
    );
    assert_eq!(
        UiVertex::get_attributes(),
        vec![
            VertexAttributeDescriptor { offset: 0, format: VertexFormat::Float2, shader_location: 0 },
            VertexAttributeDescriptor { offset: 8, format: VertexFormat::Float2, shader_location: 1 },
            VertexAttributeDescriptor { offset: 16, format: VertexFormat::Uint, shader_location: 2 },
        ]
    );
}

#[test]
fn the_shadow_pipeline_culls_front_faces_and_biases_depth() {
    let shadow = pipeline(PassKind::Shadow, TextureFormat::Bgra8UnormSrgb);
    assert_eq!(shadow.vertex_shader, "src/shader_files/vs_shadow.shader");
    assert_eq!(shadow.fragment_shader, "src/shader_files/fs_shadow.shader");
    assert_eq!(shadow.color_format, None);
    assert_eq!(shadow.depth, DepthState::LessEqual { format: TextureFormat::Depth32Float });
    assert_eq!(shadow.textures, TextureInput::Nothing);
    assert_eq!(shadow.local_uniform, LocalUniform::Matrix);
    assert!(!shadow.camera);
    match shadow.rasterization {
        Rasterization::Custom { front_face, cull_mode, depth_bias, depth_bias_slope_scale, depth_bias_clamp } => {
            assert_eq!(front_face, FrontFace::Ccw);
            assert_eq!(cull_mode, CullMode::Front);
            assert_eq!(depth_bias, 0);
            assert_eq!(f32::from_bits(depth_bias_slope_scale), 2.0);
            assert_eq!(f32::from_bits(depth_bias_clamp), 0.0);
        }
        Rasterization::Default => panic!("the shadow pass has its own rasterization"),
    }
}

#[test]
fn the_other_pipelines_have_their_shaders_and_inputs() {
    let format = TextureFormat::Bgra8UnormSrgb;
    let model = pipeline(PassKind::Model, format);
    assert_eq!(model.vertex_shader, "src/shader_files/vs_model.shader");
    assert_eq!(model.fragment_shader, "src/shader_files/fs_model.shader");
    assert_eq!(model.vertex_input, VertexInput::MeshInstances);
    assert_eq!(model.textures, TextureInput::MaterialAndShadow);
    assert_eq!(model.local_uniform, LocalUniform::PointLights);
    assert!(model.camera);
    assert_eq!(model.color_format, Some(format));
    assert_eq!(model.depth, DepthState::Default);
    assert_eq!(model.rasterization, Rasterization::Default);
    let skybox = pipeline(PassKind::Skybox, format);
    assert_eq!(skybox.vertex_shader, "src/shader_files/vs_skybox.shader");
    assert_eq!(skybox.vertex_input, VertexInput::Nothing);
    assert_eq!(skybox.textures, TextureInput::Skybox);
    assert_eq!(skybox.depth, DepthState::Off);
    let light = pipeline(PassKind::LightObject, format);
    assert_eq!(light.fragment_shader, "src/shader_files/fs_light.shader");
    assert_eq!(light.textures, TextureInput::Nothing);
    assert_eq!(light.local_uniform, LocalUniform::Nothing);
    let water = pipeline(PassKind::WaterEnvironment, TextureFormat::Rgba8Unorm);
    assert_eq!(water.vertex_shader, "src/shader_files/vs_watermap.shader");
    assert_eq!(water.color_format, Some(TextureFormat::Bgra8UnormSrgb));
    let surface = pipeline(PassKind::WaterSurface, format);
    assert_eq!(surface.vertex_input, VertexInput::HeightMap);
    assert_eq!(surface.textures, TextureInput::HeightMap);
    assert_eq!(
        surface.rasterization,
        Rasterization::Custom {
            front_face: FrontFace::Ccw,
            cull_mode: CullMode::Off,
            depth_bias: 0,
            depth_bias_slope_scale: 0,
            depth_bias_clamp: 0,
        }
    );
    let ui = pipeline(PassKind::Ui, format);
    assert_eq!(ui.vertex_shader, "src/shader_files/vs_ui.shader");
    assert_eq!(ui.vertex_input, VertexInput::Ui);
    assert_eq!(ui.textures, TextureInput::Ui);
    match ui.rasterization {
        Rasterization::Custom { front_face, cull_mode, .. } => {
            assert_eq!((front_face, cull_mode), (FrontFace::Cw, CullMode::Off))
        }
        Rasterization::Default => panic!("the interface pass has its own rasterization"),
    }
}

#[test]
fn shaders_are_loaded_in_construction_order() {
    let asked = std::cell::RefCell::new(Vec::new());
    let load = |path: &'static str, kind: ShaderType| -> Result<Vec<u32>, ShaderLoadError> {
        asked.borrow_mut().push((path, kind));
        Ok(vec![path.len() as u32])
    };
    let shaders = load_shaders(TextureFormat::Bgra8UnormSrgb, load).ok().unwrap();
    let kinds: Vec<PassKind> = shaders.iter().map(|s| s.kind).collect();
    assert_eq!(
        kinds,
        vec![
            PassKind::WaterEnvironment,
            PassKind::Shadow,
            PassKind::WaterSurface,
            PassKind::Model,
            PassKind::LightObject,
            PassKind::Skybox,
            PassKind::Ui,
        ]
    );
    assert_eq!(asked.borrow().len(), 14);
    assert_eq!(asked.borrow()[0], ("src/shader_files/vs_watermap.shader", ShaderType::Vertex));
    assert_eq!(asked.borrow()[1], ("src/shader_files/fs_watermap.shader", ShaderType::Fragment));
    assert_eq!(asked.borrow()[7], ("src/shader_files/fs_model.shader", ShaderType::Fragment));
    assert_eq!(shaders[3].vertex, vec!["src/shader_files/vs_model.shader".len() as u32]);
    assert_eq!(shaders[3].fragment, vec!["src/shader_files/fs_model.shader".len() as u32]);
}

#[test]
fn the_first_shader_that_fails_ends_the_construction() {
    let asked = std::cell::RefCell::new(0);
    let load = |path: &'static str, _kind: ShaderType| -> Result<Vec<u32>, ShaderLoadError> {
        *asked.borrow_mut() += 1;
        if path.ends_with("fs_shadow.shader") {
            Err(ShaderLoadError::FailedToCompile("unexpected token".to_string()))
        } else if path.ends_with("vs_model.shader") {
            Err(ShaderLoadError::FailedToFind(path.to_string()))
        } else {
            Ok(Vec::new())
        }
    };
    let error = load_shaders(TextureFormat::Bgra8UnormSrgb, load).err().unwrap();
    assert_eq!(error.pass, PassKind::Shadow);
    assert_eq!(error.path, "src/shader_files/fs_shadow.shader");
    assert!(matches!(error.error, ShaderLoadError::FailedToCompile(ref m) if m == "unexpected token"));
    assert_eq!(*asked.borrow(), 4);
}
