use smol_engine::assets::{AssetManager, ModelHandle};
use smol_engine::components::LightTag;
use smol_engine::directional_light::{DirectionalLight, DirectionalLightRaw};
use smol_engine::frame::{attachment_ops, main_pass, pass_descriptor, plan_passes, PassHeader};
use smol_engine::instancing::{Chunk, DrawCall, InstanceData, InstanceOverflow, InstanceRange};
use smol_engine::model::Model;
use smol_engine::pass::light_object_pass::LightObjectPass;
use smol_engine::pass::model_pass::ModelPass;
use smol_engine::pass::shadow_pass::ShadowPass;
use smol_engine::pass::skybox_pass::SkyboxPass;
use smol_engine::pass::water_environment_pass::WaterEnvironmentPass;
use smol_engine::pass::water_surface_pass::WaterSurfacePass;
use smol_engine::pass::{
    model_draws, Attachment, AttachmentOps, Draw, LoadOp, Pass, PassKind, PassTargets, PassUpdate,
    RenderPassDescriptor,
};
use smol_engine::point_light::{PointLight, ShadowBinding};
use smol_engine::scene::{HeightMap, LightEntity, Scene, SunEntity, Surface, UiFrame};
use smol_engine::ui::{ClipRect, UiCommand, UiDraw, UiError};
use smol_engine::uniform::{CameraUniform, LightSpaceMatrix};
use smol_engine::wgpu_renderer::{
    Command, Extent, Frame, FrameError, FramePlan, FrameStart, SurfaceImage, WgpuRenderer,
};
use smol_engine::words::{Matrix4, Vector3, Vector4};

fn model(capacity: u32) -> Model {
    Model { instance_capacity: capacity, meshes: Vec::new(), materials: Vec::new() }
}

fn matrix(tag: u32) -> Matrix4 {
    let column = |c: u32| Vector4 { x: tag + c, y: tag + c + 10, z: tag + c + 20, w: tag + c + 30 };
    Matrix4 { c0: column(0), c1: column(1), c2: column(2), c3: column(3) }
}

fn chunk(model: ModelHandle, entities: u32, light: bool) -> Chunk {
    Chunk {
        model,
        instances: (0..entities).map(|i| InstanceData::new(matrix(i))).collect(),
        light: if light { Some(LightTag) } else { None },
    }
}

fn light(i: u32, binding: ShadowBinding) -> LightEntity {
    LightEntity {
        light: PointLight { target_view: binding, ..PointLight::default() },
        position: Vector3 { x: i, y: 0, z: 0 },
        light_space_matrix: matrix(1000 + i),
    }
}

fn surface(indices: u32, tag: u32) -> Surface {
    Surface {
        height_map: HeightMap { number_of_indices: indices },
        model_matrix: matrix(tag),
        environment_matrix: matrix(tag + 1),
    }
}

fn empty_scene() -> Scene {
    Scene {
        camera: CameraUniform::new(matrix(1), matrix(2), Vector3 { x: 7, y: 8, z: 9 }),
        chunks: Vec::new(),
        lights: Vec::new(),
        sun: None,
        surfaces: Vec::new(),
        ui: None,
    }
}

fn loader(path: &String) -> Result<Model, String> {
    if path.starts_with("missing") {
        Err(format!("cannot open {}", path))
    } else {
        Ok(model(100))
    }
}

fn begun(renderer: &WgpuRenderer, scene: &Scene) -> FrameStart {
    match renderer.begin_frame(SurfaceImage::Ready, scene) {
        Frame::Started(start) => start,
        Frame::Skipped { .. } => panic!("the frame did not begin"),
    }
}

fn frame(renderer: &WgpuRenderer, assets: &mut AssetManager, scene: &mut Scene) -> Result<FramePlan, FrameError> {
    let start = begun(renderer, scene);
    renderer.render_frame(start, assets, scene, loader)
}

fn rendered(renderer: &WgpuRenderer, assets: &mut AssetManager, scene: &mut Scene) -> FramePlan {
    match frame(renderer, assets, scene) {
        Ok(plan) => plan,
        Err(_) => panic!("the frame was not laid out"),
    }
}

fn kinds(plan: &FramePlan) -> Vec<PassKind> {
    plan.passes.iter().map(|p| p.header.kind).collect()
}

fn ops(target: Attachment, load: LoadOp) -> Option<AttachmentOps> {
    Some(AttachmentOps { target, load })
}

#[test]
fn an_empty_scene_has_the_main_sequence_only() {
    let renderer = WgpuRenderer::new(1600, 1200);
    let mut assets = AssetManager::new();
    let mut scene = empty_scene();
    let plan = rendered(&renderer, &mut assets, &mut scene);
    assert_eq!(kinds(&plan), vec![PassKind::Skybox, PassKind::Model, PassKind::LightObject]);
    assert_eq!(begun(&renderer, &scene).camera(), scene.camera);
    assert_eq!(plan.depth_size, Extent { width: 1600, height: 1200 });
    assert_eq!(plan.point_lights.lights_used, 0);
    assert_eq!(plan.directional_light, None);
    assert!(plan.upload.copies.is_empty());
    assert!(plan.ui_draws.is_empty());
    assert!(plan.surface_matrices.is_empty());
    assert_eq!(plan.passes[0].draws, vec![Draw::Vertices { vertices: 3 }]);
    assert!(plan.passes[1].draws.is_empty());
    assert!(plan.passes[2].draws.is_empty());
    assert_eq!(
        plan.commands(),
        vec![
            Command::WritePointLights,
            Command::RenderPass { pass: 0 },
            Command::RenderPass { pass: 1 },
            Command::RenderPass { pass: 2 },
            Command::Submit,
        ]
    );
}

#[test]
fn the_first_writer_clears_and_the_others_load() {
    let renderer = WgpuRenderer::new(800, 600);
    let mut assets = AssetManager::new();
    let mut scene = empty_scene();
    scene.ui = Some(UiFrame { width: 800, height: 600, draw_lists: Vec::new() });
    let plan = rendered(&renderer, &mut assets, &mut scene);
    assert_eq!(kinds(&plan), vec![PassKind::Skybox, PassKind::Model, PassKind::LightObject, PassKind::Ui]);
    let descriptors: Vec<RenderPassDescriptor> = plan.passes.iter().map(|p| p.descriptor).collect();
    assert_eq!(
        descriptors,
        vec![
            RenderPassDescriptor { color: ops(Attachment::Swapchain, LoadOp::Clear), depth: None },
            RenderPassDescriptor {
                color: ops(Attachment::Swapchain, LoadOp::Load),
                depth: ops(Attachment::Depth, LoadOp::Clear),
            },
            RenderPassDescriptor {
                color: ops(Attachment::Swapchain, LoadOp::Load),
                depth: ops(Attachment::Depth, LoadOp::Load),
            },
            RenderPassDescriptor {
                color: ops(Attachment::Swapchain, LoadOp::Load),
                depth: ops(Attachment::Depth, LoadOp::Load),
            },
        ]
    );
}

#[test]
fn the_shadow_pass_is_recorded_before_the_opaque_pass() {
    let renderer = WgpuRenderer::new(800, 600);
    let mut assets = AssetManager::new();
    let cube = assets.load_model("box/cube.obj");
    let marker = assets.load_model("light/light_cube.obj");
    let mut scene = empty_scene();
    scene.chunks = vec![chunk(marker, 1, true), chunk(cube, 1, false)];
    scene.lights = vec![light(0, ShadowBinding::Unassigned)];
    let plan = rendered(&renderer, &mut assets, &mut scene);
    assert_eq!(scene.lights[0].light.target_view, ShadowBinding::Bound { layer: 0 });
    assert_eq!(kinds(&plan), vec![PassKind::Shadow, PassKind::Skybox, PassKind::Model, PassKind::LightObject]);
    let shadow = &plan.passes[0];
    assert_eq!(shadow.header.source, Some(0));
    assert_eq!(
        shadow.header.uniform,
        Some(LightSpaceMatrix { light_space_matrix: scene.lights[0].light_space_matrix })
    );
    assert_eq!(
        shadow.descriptor,
        RenderPassDescriptor { color: None, depth: ops(Attachment::ShadowLayer(0), LoadOp::Clear) }
    );
    let cube_draw = DrawCall { model: cube, instances: InstanceRange { first: 0, count: 1 } };
    assert_eq!(shadow.draws, vec![Draw::Model { call: cube_draw, textured: false }]);
    assert_eq!(plan.passes[2].draws, vec![Draw::Model { call: cube_draw, textured: true }]);
    let marker_draw = DrawCall { model: marker, instances: InstanceRange { first: 0, count: 1 } };
    assert_eq!(plan.passes[3].draws, vec![Draw::Model { call: marker_draw, textured: false }]);
    let commands = plan.commands();
    assert_eq!(
        commands,
        vec![
            Command::CopyInstances { copy: 0 },
            Command::CopyInstances { copy: 1 },
            Command::WritePointLights,
            Command::WritePassUniform { pass: 0 },
            Command::RenderPass { pass: 0 },
            Command::RenderPass { pass: 1 },
            Command::RenderPass { pass: 2 },
            Command::RenderPass { pass: 3 },
            Command::Submit,
        ]
    );
    let at = |c: Command| commands.iter().position(|x| *x == c).unwrap();
    assert!(at(Command::RenderPass { pass: 0 }) < at(Command::RenderPass { pass: 2 }));
    assert!(at(Command::CopyInstances { copy: 1 }) < at(Command::RenderPass { pass: 0 }));
    assert_eq!(plan.point_lights.lights_used, 1);
    assert_eq!(plan.point_lights.lights[0], scene.lights[0].raw());
}

#[test]
fn a_light_without_layer_casts_no_shadow() {
    let renderer = WgpuRenderer::new(800, 600);
    let mut assets = AssetManager::new();
    let mut scene = empty_scene();
    scene.lights = (0..17).map(|i| light(i, ShadowBinding::Unassigned)).collect();
    scene.lights[0].light.target_view = ShadowBinding::Bound { layer: 4 };
    scene.lights[2].light.target_view = ShadowBinding::Bound { layer: 2 };
    let plan = rendered(&renderer, &mut assets, &mut scene);
    assert_eq!(scene.lights[16].light.target_view, ShadowBinding::Unassigned);
    let shadows: Vec<_> = plan.passes.iter().filter(|p| p.header.kind == PassKind::Shadow).collect();
    assert_eq!(shadows.len(), 16);
    assert!(shadows.iter().all(|p| p.header.source != Some(16)));
    assert_eq!(plan.passes[0].header.source, Some(0));
    assert_eq!(plan.passes[0].descriptor.depth, ops(Attachment::ShadowLayer(4), LoadOp::Clear));
    assert_eq!(plan.passes[1].header.source, Some(1));
    assert_eq!(plan.passes[1].descriptor.depth, ops(Attachment::ShadowLayer(0), LoadOp::Clear));
    assert_eq!(plan.passes[2].header.source, Some(2));
    assert_eq!(plan.passes[2].descriptor.depth, ops(Attachment::ShadowLayer(2), LoadOp::Clear));
    assert_eq!(
        kinds(&plan)[16..],
        [PassKind::Skybox, PassKind::Model, PassKind::LightObject]
    );
    assert_eq!(plan.point_lights.lights_used, 16);
}

#[test]
fn a_light_that_moved_up_keeps_its_layer_and_a_new_light_takes_the_free_one() {
    let renderer = WgpuRenderer::new(800, 600);
    let mut assets = AssetManager::new();
    let mut scene = empty_scene();
    scene.lights = vec![light(0, ShadowBinding::Unassigned), light(1, ShadowBinding::Unassigned)];
    rendered(&renderer, &mut assets, &mut scene);
    assert_eq!(scene.lights[1].light.target_view, ShadowBinding::Bound { layer: 1 });
    scene.lights.remove(0);
    scene.lights.push(light(2, ShadowBinding::Unassigned));
    let plan = rendered(&renderer, &mut assets, &mut scene);
    assert_eq!(scene.lights[0].light.target_view, ShadowBinding::Bound { layer: 1 });
    assert_eq!(scene.lights[1].light.target_view, ShadowBinding::Bound { layer: 0 });
    assert_eq!(plan.passes[0].descriptor.depth, ops(Attachment::ShadowLayer(1), LoadOp::Clear));
    assert_eq!(plan.passes[1].descriptor.depth, ops(Attachment::ShadowLayer(0), LoadOp::Clear));
}

#[test]
fn the_camera_is_handed_out_before_anything_is_loaded() {
    let renderer = WgpuRenderer::new(800, 600);
    let mut assets = AssetManager::new();
    let pending = assets.load_model("box/cube.obj");
    let mut scene = empty_scene();
    let start = begun(&renderer, &scene);
    assert_eq!(start.camera(), scene.camera);
    assert!(assets.get_model(&pending).is_none());
    let plan = renderer.render_frame(start, &mut assets, &mut scene, loader).ok().unwrap();
    assert!(assets.get_model(&pending).is_some());
    assert_eq!(plan.commands().last(), Some(&Command::Submit));
}

#[test]
fn an_interface_frame_without_pixels_is_refused_even_without_lists() {
    let renderer = WgpuRenderer::new(800, 600);
    let mut assets = AssetManager::new();
    let mut scene = empty_scene();
    for (width, height) in [(0, 600), (800, 0), (0, 0)] {
        scene.ui = Some(UiFrame { width, height, draw_lists: Vec::new() });
        match frame(&renderer, &mut assets, &mut scene) {
            Err(FrameError::Ui { list, error }) => {
                assert_eq!(list, 0);
                assert_eq!(error, UiError::EmptyFrame);
            }
            _ => panic!("the empty frame was not refused"),
        }
        assert!(matches!(renderer.plan_ui(scene.ui.as_ref().unwrap()), Err((0, UiError::EmptyFrame))));
    }
    scene.ui = Some(UiFrame { width: 0, height: 0, draw_lists: vec![vec![UiCommand::ResetRenderState]] });
    assert!(matches!(frame(&renderer, &mut assets, &mut scene), Err(FrameError::Ui { list: 0, error: UiError::EmptyFrame })));
    scene.ui = Some(UiFrame { width: 1, height: 1, draw_lists: Vec::new() });
    assert!(frame(&renderer, &mut assets, &mut scene).is_ok());
}

#[test]
fn water_gets_its_environment_passes_and_its_surface_pass() {
    let renderer = WgpuRenderer::new(800, 600);
    let mut assets = AssetManager::new();
    let mut scene = empty_scene();
    scene.surfaces = vec![surface(1536, 40), surface(6, 50)];
    scene.sun = Some(SunEntity { light: DirectionalLight::default(), light_space_matrix: matrix(77) });
    let plan = rendered(&renderer, &mut assets, &mut scene);
    assert_eq!(
        kinds(&plan),
        vec![
            PassKind::WaterEnvironment,
            PassKind::WaterEnvironment,
            PassKind::Skybox,
            PassKind::WaterSurface,
            PassKind::Model,
            PassKind::LightObject,
        ]
    );
    assert_eq!(plan.passes[0].descriptor.color, ops(Attachment::WaterMap, LoadOp::Clear));
    assert_eq!(plan.passes[1].descriptor.color, ops(Attachment::WaterMap, LoadOp::Load));
    assert_eq!(plan.passes[1].header.uniform, Some(LightSpaceMatrix { light_space_matrix: matrix(51) }));
    assert_eq!(plan.passes[3].descriptor.depth, ops(Attachment::Depth, LoadOp::Clear));
    assert_eq!(plan.passes[4].descriptor.depth, ops(Attachment::Depth, LoadOp::Load));
    assert_eq!(
        plan.passes[3].draws,
        vec![Draw::Surface { surface: 0, indices: 1536 }, Draw::Surface { surface: 1, indices: 6 }]
    );
    assert_eq!(plan.surface_matrices, vec![matrix(40), matrix(50)]);
    assert_eq!(plan.directional_light, Some(DirectionalLightRaw::new(&DirectionalLight::default(), matrix(77))));
}

#[test]
fn after_a_resize_the_depth_attachment_has_the_new_size() {
    let mut renderer = WgpuRenderer::new(1600, 1200);
    renderer.resize(1024, 768);
    assert_eq!(renderer.width, 1024);
    assert_eq!(renderer.height, 768);
    assert_eq!(renderer.swap_chain, Extent { width: 1024, height: 768 });
    assert_eq!(renderer.depth_texture, Extent { width: 1024, height: 768 });
    let mut assets = AssetManager::new();
    let mut scene = empty_scene();
    let plan = rendered(&renderer, &mut assets, &mut scene);
    assert_eq!(plan.depth_size, Extent { width: 1024, height: 768 });
    renderer.resize(0, 0);
    let plan = rendered(&renderer, &mut assets, &mut scene);
    assert_eq!(plan.depth_size, Extent { width: 0, height: 0 });
}

#[test]
fn a_stale_surface_skips_the_frame_and_touches_nothing() {
    let mut renderer = WgpuRenderer::new(1600, 1200);
    renderer.resize(640, 480);
    let mut assets = AssetManager::new();
    let pending = assets.load_model("box/cube.obj");
    let mut scene = empty_scene();
    scene.lights = vec![light(0, ShadowBinding::Unassigned)];
    match renderer.begin_frame(SurfaceImage::Stale, &scene) {
        Frame::Skipped { recreate } => assert_eq!(recreate, Extent { width: 640, height: 480 }),
        Frame::Started(_) => panic!("the frame was not skipped"),
    }
    assert!(assets.get_model(&pending).is_none());
    assert_eq!(scene.lights[0].light.target_view, ShadowBinding::Unassigned);
    let plan = rendered(&renderer, &mut assets, &mut scene);
    assert!(assets.get_model(&pending).is_some());
    assert_eq!(plan.depth_size, Extent { width: 640, height: 480 });
}

#[test]
fn a_model_that_fails_to_load_ends_the_frame_with_its_path() {
    let renderer = WgpuRenderer::new(800, 600);
    let mut assets = AssetManager::new();
    assets.load_model("box/cube.obj");
    assets.load_model("missing/model.obj");
    let mut scene = empty_scene();
    scene.lights = vec![light(0, ShadowBinding::Unassigned)];
    match frame(&renderer, &mut assets, &mut scene) {
        Err(FrameError::Load(e)) => {
            assert_eq!(e.path, "missing/model.obj");
            assert_eq!(e.reason, "cannot open missing/model.obj");
        }
        _ => panic!("the load error was not reported"),
    }
    assert_eq!(scene.lights[0].light.target_view, ShadowBinding::Unassigned);
}

#[test]
fn an_overflowing_group_ends_the_frame() {
    let renderer = WgpuRenderer::new(800, 600);
    let mut assets = AssetManager::new();
    let cube = assets.load_model("box/cube.obj");
    let mut scene = empty_scene();
    scene.chunks = vec![chunk(cube, 60, false), chunk(cube, 41, false)];
    match frame(&renderer, &mut assets, &mut scene) {
        Err(FrameError::Instances(e)) => {
            assert_eq!(e, InstanceOverflow { chunk: 1, model: cube, capacity: 100, used: 60, requested: 41 })
        }
        _ => panic!("the overflow was not reported"),
    }
}

#[test]
fn a_model_that_is_not_loaded_is_not_drawn() {
    let renderer = WgpuRenderer::new(800, 600);
    let mut assets = AssetManager::new();
    let cube = assets.load_model("box/cube.obj");
    let unknown = ModelHandle { id: 7 };
    let mut scene = empty_scene();
    scene.chunks = vec![chunk(unknown, 2, false), chunk(cube, 1, false)];
    let plan = rendered(&renderer, &mut assets, &mut scene);
    assert_eq!(plan.upload.copies.len(), 1);
    assert_eq!(plan.upload.offsets.get(&unknown), None);
    let opaque = plan.passes.iter().find(|p| p.header.kind == PassKind::Model).unwrap();
    let call = DrawCall { model: cube, instances: InstanceRange { first: 0, count: 1 } };
    assert_eq!(opaque.draws, vec![Draw::Model { call, textured: true }]);
}

#[test]
fn the_user_interface_is_drawn_last() {
    let mut renderer = WgpuRenderer::new(800, 600);
    renderer.ui_pass.textures.push(3);
    let mut assets = AssetManager::new();
    let mut scene = empty_scene();
    let clip = ClipRect { x0: 10, y0: 20, x1: 110, y1: 70 };
    let elements = |texture_id: usize| UiCommand::Elements {
        count: 6,
        clip_rect: clip,
        texture_id,
        vtx_offset: 4,
        idx_offset: 12,
    };
    scene.ui = Some(UiFrame {
        width: 800,
        height: 600,
        draw_lists: vec![vec![elements(usize::MAX)], vec![UiCommand::ResetRenderState, elements(3)]],
    });
    let plan = rendered(&renderer, &mut assets, &mut scene);
    assert_eq!(plan.passes.last().unwrap().header.kind, PassKind::Ui);
    assert_eq!(plan.passes.last().unwrap().draws, vec![Draw::UiList { list: 0 }, Draw::UiList { list: 1 }]);
    assert_eq!(plan.ui_draws.len(), 2);
    assert_eq!(plan.ui_draws[0].len(), 1);
    assert_eq!(plan.ui_draws[1].len(), 1);
    match plan.ui_draws[1][0] {
        UiDraw::Elements { first_index, end_index, base_vertex, .. } => {
            assert_eq!((first_index, end_index, base_vertex), (12, 18, 4))
        }
        _ => panic!("not an indexed draw"),
    }
    scene.ui.as_mut().unwrap().draw_lists[1].push(elements(99));
    match frame(&renderer, &mut assets, &mut scene) {
        Err(FrameError::Ui { list, error }) => {
            assert_eq!(list, 1);
            assert_eq!(error, UiError::UnknownTexture { command: 2, texture_id: 99 });
        }
        _ => panic!("the unknown texture was not reported"),
    }
}

#[test]
fn pass_headers_follow_the_fixed_order() {
    let lights = vec![light(0, ShadowBinding::Bound { layer: 1 })];
    let surfaces = vec![surface(6, 3)];
    let headers = plan_passes(&lights, &surfaces, true);
    let kinds: Vec<PassKind> = headers.iter().map(|h| h.kind).collect();
    assert_eq!(
        kinds,
        vec![
            PassKind::Shadow,
            PassKind::WaterEnvironment,
            PassKind::Skybox,
            PassKind::WaterSurface,
            PassKind::Model,
            PassKind::LightObject,
            PassKind::Ui,
        ]
    );
    assert_eq!(
        main_pass(PassKind::Skybox),
        PassHeader {
            kind: PassKind::Skybox,
            source: None,
            targets: PassTargets { color: Some(Attachment::Swapchain), depth: None },
            uniform: None,
        }
    );
    assert_eq!(main_pass(PassKind::Model).targets.depth, Some(Attachment::Depth));
    assert_eq!(attachment_ops(&headers, 2, None), None);
    assert_eq!(attachment_ops(&headers, 0, Some(Attachment::Depth)), ops(Attachment::Depth, LoadOp::Clear));
    assert_eq!(attachment_ops(&headers, 5, Some(Attachment::Depth)), ops(Attachment::Depth, LoadOp::Load));
    assert_eq!(
        pass_descriptor(&headers, 6),
        RenderPassDescriptor {
            color: ops(Attachment::Swapchain, LoadOp::Load),
            depth: ops(Attachment::Depth, LoadOp::Load),
        }
    );
}

#[test]
fn passes_write_only_what_is_theirs() {
    let mut assets = AssetManager::new();
    let cube = assets.load_model("box/cube.obj");
    assets.clear_load_queue(loader).unwrap();
    let mut scene = empty_scene();
    scene.chunks = vec![chunk(cube, 2, false)];
    scene.lights = vec![light(0, ShadowBinding::Unassigned)];
    scene.surfaces = vec![surface(6, 3)];
    assert!(matches!(SkyboxPass::new().update_uniform_data(&assets, &scene), Ok(PassUpdate::Nothing)));
    assert!(matches!(ShadowPass::new().update_uniform_data(&assets, &scene), Ok(PassUpdate::Nothing)));
    assert!(matches!(LightObjectPass::new().update_uniform_data(&assets, &scene), Ok(PassUpdate::Nothing)));
    assert!(matches!(WaterEnvironmentPass::new().update_uniform_data(&assets, &scene), Ok(PassUpdate::Nothing)));
    match WaterSurfacePass::new().update_uniform_data(&assets, &scene) {
        Ok(PassUpdate::Surfaces { model_matrices }) => assert_eq!(model_matrices, vec![matrix(3)]),
        _ => panic!("no surface matrices"),
    }
    match ModelPass::new().update_uniform_data(&assets, &scene) {
        Ok(PassUpdate::Model { upload, point_lights }) => {
            assert_eq!(upload.offsets.get(&cube), Some(2));
            assert_eq!(point_lights.lights_used, 1);
        }
        _ => panic!("no model update"),
    }
    let environment = WaterEnvironmentPass::new();
    assert_eq!(environment.update_uniforms(&scene.surfaces[0]).light_space_matrix, matrix(4));
    let call = DrawCall { model: cube, instances: InstanceRange { first: 0, count: 2 } };
    assert_eq!(environment.render(&assets, &scene).unwrap(), vec![Draw::Model { call, textured: false }]);
    assert_eq!(
        model_draws(&assets, &scene.chunks, smol_engine::instancing::EntityFilter::All, true).unwrap(),
        vec![Draw::Model { call, textured: true }]
    );
}

#[test]
fn a_frame_draws_fifty_and_three_instances_from_zero() {
    let renderer = WgpuRenderer::new(800, 600);
    let mut assets = AssetManager::new();
    let a = assets.load_model("a.obj");
    let b = assets.load_model("b.obj");
    let mut scene = empty_scene();
    scene.chunks = vec![chunk(a, 50, false), chunk(b, 3, false)];
    let plan = rendered(&renderer, &mut assets, &mut scene);
    assert_eq!(assets.get_model(&a).unwrap().instance_capacity, 100);
    assert_eq!(plan.upload.offsets.get(&a), Some(50));
    assert_eq!(plan.upload.offsets.get(&b), Some(3));
    assert_eq!(plan.upload.offsets.len(), 2);
    let opaque = plan.passes.iter().find(|p| p.header.kind == PassKind::Model).unwrap();
    assert_eq!(
        opaque.draws,
        vec![
            Draw::Model {
                call: DrawCall { model: a, instances: InstanceRange { first: 0, count: 50 } },
                textured: true,
            },
            Draw::Model {
                call: DrawCall { model: b, instances: InstanceRange { first: 0, count: 3 } },
                textured: true,
            },
        ]
    );
    for pass in &plan.passes {
        for draw in &pass.draws {
            if let Draw::Model { call, .. } = draw {
                assert!(plan.upload.copies.iter().any(|c| c.model == call.model && c.target == call.instances));
            }
        }
    }
    let commands = plan.commands();
    assert_eq!(commands.iter().filter(|c| **c == Command::WritePointLights).count(), 1);
    assert_eq!(commands.iter().filter(|c| **c == Command::Submit).count(), 1);
    assert_eq!(commands.last(), Some(&Command::Submit));
}
