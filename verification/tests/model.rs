use smol_engine::instancing::InstanceData;
use smol_engine::model::{
    Material, Mesh, MeshVertex, Model, ModelError, RawMesh, INSTANCE_BUFFER_LEN, INSTANCE_BUFFER_SIZE, INSTANCE_SIZE,
};
use smol_engine::shader::{Shader, ShaderLoadError, ShaderType};
use smol_engine::textures::{
    create_depth_texture, Extent3d, FilterMode, ShadowCubeTexture, ShadowTexture, SkyboxTexture, Texture,
    TextureFormat, TextureShaderLayout, TextureUsage, UiTexture, ViewDimension, WaterEnviornmentMap,
};
use smol_engine::uniform::ShaderStage;
use smol_engine::vertex::{VertexAttributeDescriptor, VertexBuffer, VertexFormat};
use smol_engine::words::{Vector2, Vector3};

fn material(diffuse: &str, specular: &str) -> Material {
    Material { diffuse_texture: diffuse.to_string(), specular_texture: specular.to_string() }
}

fn triangle(material_id: Option<usize>) -> RawMesh {
    RawMesh {
        positions: (0..9).collect(),
        normals: (100..109).collect(),
        texcoords: (200..206).collect(),
        indices: vec![0, 1, 2],
        material_id,
    }
}

#[test]
fn a_decoded_model_keeps_its_meshes_and_materials() {
    let meshes = vec![triangle(Some(1)), triangle(None)];
    let materials = vec![material("body.png", "body_spec.png"), material("glass.png", "")];
    let model = Model::load(&meshes, materials).unwrap();
    assert_eq!(model.instance_capacity, 250);
    assert_eq!(model.meshes, vec![Mesh { material: 1, num_indexes: 3 }, Mesh { material: 0, num_indexes: 3 }]);
    assert_eq!(model.materials.len(), 2);
    assert_eq!(model.materials[0].diffuse_texture, "body.png");
    assert_eq!(model.materials[0].specular_texture, "body_spec.png");
    assert_eq!(model.materials[1].diffuse_texture, "glass.png");
    assert_eq!(model.materials[1].specular_texture, "glass.png");
}

#[test]
fn the_instance_buffer_holds_250_instances() {
    assert_eq!(INSTANCE_BUFFER_SIZE / INSTANCE_SIZE, INSTANCE_BUFFER_LEN as u64);
    assert_eq!(INSTANCE_SIZE, 64);
}

#[test]
fn vertices_are_interleaved() {
    let vertices = triangle(None).vertices().unwrap();
    assert_eq!(vertices.len(), 3);
    assert_eq!(
        vertices[1],
        MeshVertex {
            position: Vector3 { x: 3, y: 4, z: 5 },
            normal: Vector3 { x: 103, y: 104, z: 105 },
            tex_coords: Vector2 { x: 202, y: 203 },
        }
    );
    let mut ragged = triangle(None);
    ragged.positions.push(9);
    assert_eq!(ragged.vertices().unwrap().len(), 3);
}

#[test]
fn a_mesh_without_normals_is_refused() {
    let mut mesh = triangle(Some(0));
    mesh.normals.truncate(8);
    assert!(mesh.vertices().is_none());
    let error = Model::load(&vec![triangle(Some(0)), mesh], vec![material("a.png", "")]).unwrap_err();
    assert_eq!(error, ModelError::MissingAttributes { mesh: 1 });
    let mut flat = triangle(Some(0));
    flat.texcoords.clear();
    assert!(flat.vertices().is_none());
    assert_eq!(
        Model::load(&vec![flat], vec![material("a.png", "")]).unwrap_err(),
        ModelError::MissingAttributes { mesh: 0 }
    );
}

#[test]
fn a_mesh_with_an_unknown_material_is_refused() {
    let error = Model::load(&vec![triangle(Some(2))], vec![material("a.png", ""), material("b.png", "")]);
    assert_eq!(error.unwrap_err(), ModelError::UnknownMaterial { mesh: 0 });
    let bare = Model::load(&vec![triangle(None)], Vec::new());
    assert_eq!(bare.unwrap_err(), ModelError::UnknownMaterial { mesh: 0 });
    assert!(Model::load(&Vec::new(), Vec::new()).unwrap().meshes.is_empty());
}

#[test]
fn vertex_attributes_fill_their_vertex() {
    let attribute =
        |offset, format, shader_location| VertexAttributeDescriptor { offset, format, shader_location };
    assert_eq!(
        MeshVertex::get_attributes(),
        vec![
            attribute(0, VertexFormat::Float3, 0),
            attribute(12, VertexFormat::Float3, 1),
            attribute(24, VertexFormat::Float2, 2),
        ]
    );
    assert_eq!(
        InstanceData::get_attributes(),
        vec![
            attribute(0, VertexFormat::Float4, 3),
            attribute(16, VertexFormat::Float4, 4),
            attribute(32, VertexFormat::Float4, 5),
            attribute(48, VertexFormat::Float4, 6),
        ]
    );
}

#[test]
fn the_shadow_texture_has_one_layer_for_each_point_light() {
    let (texture, sampler) = ShadowTexture::allocate_texture();
    assert_eq!(texture.size, Extent3d { width: 2048, height: 2048, depth: 16 });
    assert_eq!(texture.format, TextureFormat::Depth32Float);
    assert_eq!(texture.usage, TextureUsage { output_attachment: true, sampled: true, copy_dst: false });
    assert!(sampler.compare);
    assert_eq!(sampler.mag_filter, FilterMode::Nearest);
    let layout = ShadowTexture::get_layout();
    assert_eq!(layout.dimension, ViewDimension::D2Array);
    assert_eq!(layout.visibility, ShaderStage::Fragment);
    assert!(layout.comparison);
    let (cube, _) = ShadowCubeTexture::allocate_texture();
    assert_eq!(cube.size, Extent3d { width: 1024, height: 1024, depth: 16 });
    assert_eq!(ShadowCubeTexture::get_layout().dimension, ViewDimension::CubeArray);
}

#[test]
fn the_other_textures_have_their_descriptions() {
    let (water, sampler) = WaterEnviornmentMap::allocate_texture();
    assert_eq!(water.size, Extent3d { width: 512, height: 512, depth: 1 });
    assert_eq!(water.format, TextureFormat::Bgra8UnormSrgb);
    assert!(sampler.compare);
    assert_eq!(WaterEnviornmentMap::get_layout().dimension, ViewDimension::D2);
    let (sky, sampler) = SkyboxTexture::create_texture_data(256, 128);
    assert_eq!(sky.size, Extent3d { width: 256, height: 128, depth: 6 });
    assert_eq!(sky.format, TextureFormat::Rgba8Unorm);
    assert_eq!(sky.usage, TextureUsage { output_attachment: false, sampled: true, copy_dst: true });
    assert_eq!(sampler.min_filter, FilterMode::Linear);
    assert_eq!(sampler.mag_filter, FilterMode::Nearest);
    assert!(!sampler.compare);
    assert_eq!(SkyboxTexture::get_layout().dimension, ViewDimension::Cube);
    let (font, sampler) = UiTexture::font_atlas(512, 64);
    assert_eq!(font.size, Extent3d { width: 512, height: 64, depth: 1 });
    assert_eq!(font.format, TextureFormat::Bgra8UnormSrgb);
    assert_eq!(sampler.mag_filter, FilterMode::Linear);
    assert!(!UiTexture::get_layout().comparison);
    let depth = create_depth_texture(1600, 1200);
    assert_eq!(depth.size, Extent3d { width: 1600, height: 1200, depth: 1 });
    assert_eq!(depth.format, TextureFormat::Depth32Float);
    assert_eq!(depth.usage, TextureUsage { output_attachment: true, sampled: false, copy_dst: false });
}

#[test]
fn a_shader_that_cannot_be_read_is_reported_with_its_path() {
    let compile = |_source: &String, _kind: ShaderType| -> Result<Vec<u32>, String> { Ok(vec![0x0723_0203]) };
    match Shader::new("src/shader_files/vs_model.shader".to_string(), None, ShaderType::Vertex, compile) {
        Err(ShaderLoadError::FailedToFind(path)) => assert_eq!(path, "src/shader_files/vs_model.shader"),
        _ => panic!("the missing file was not reported"),
    }
}

#[test]
fn a_shader_that_does_not_compile_is_reported_with_the_message() {
    let compile = |source: &String, kind: ShaderType| -> Result<Vec<u32>, String> {
        if source.contains("void main") {
            Ok(vec![0x0723_0203, if kind == ShaderType::Fragment { 4 } else { 0 }])
        } else {
            Err("no entry point".to_string())
        }
    };
    let path = "fs_model.shader".to_string();
    match Shader::new(path.clone(), Some("int x;".to_string()), ShaderType::Fragment, compile) {
        Err(ShaderLoadError::FailedToCompile(message)) => assert_eq!(message, "no entry point"),
        _ => panic!("the compile error was not reported"),
    }
    let shader = Shader::new(path, Some("void main() {}".to_string()), ShaderType::Fragment, compile).ok().unwrap();
    assert_eq!(shader.code, vec![0x0723_0203, 4]);
    assert_eq!(shader.shader_type, ShaderType::Fragment);
}

#[test]
fn a_model_is_drawn_mesh_by_mesh() {
    let meshes = vec![triangle(Some(1)), triangle(Some(0))];
    let model = Model::load(&meshes, vec![material("a.png", ""), material("b.png", "")]).unwrap();
    let instances = smol_engine::instancing::InstanceRange { first: 4, count: 5 };
    let textured = model.draw_model_instanced(instances);
    assert_eq!(textured.len(), 2);
    assert_eq!(
        textured[0],
        smol_engine::model::MeshDraw { mesh: 0, material: Some(1), num_indexes: 3, instances }
    );
    assert_eq!(textured[1].material, Some(0));
    let plain = model.draw_untextured(instances);
    assert_eq!(plain.len(), 2);
    assert_eq!(plain[1], smol_engine::model::MeshDraw { mesh: 1, material: None, num_indexes: 3, instances });
}
