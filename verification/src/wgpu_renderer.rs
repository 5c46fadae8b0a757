//! The frame orchestrator: the one place that knows the whole frame.
//!
//! It owns what depends on the size of the window, drains the asset queue,
//! lets every light have its shadow layer, and lays out the frame: what is
//! written first, and which passes follow in which order.

use vstd::prelude::*;
use crate::assets::{AssetManager, AssetsView, LoadError};
use crate::directional_light::DirectionalLightRaw;
use crate::frame::{descriptor_of, frame_headers, pass_descriptor, plan_passes, PassHeader};
use crate::instancing::{
    draw_of, first_overflow, fits, is_copy_list, lemma_draws_read_copies, offset_map, overflows_at, selected,
    staged, upload_instances, written_by, EntityFilter, InstanceOverflow, InstanceUpload,
};
use crate::model::Model;
use crate::pass::light_object_pass::LightObjectPass;
use crate::pass::model_pass::{raw_lights, ModelPass};
use crate::pass::shadow_pass::{assigned, ShadowPass};
use crate::pass::skybox_pass::SkyboxPass;
use crate::pass::water_environment_pass::WaterEnvironmentPass;
use crate::pass::water_surface_pass::WaterSurfacePass;
use crate::pass::{Draw, Pass, PassKind, RenderPassDescriptor};
use crate::point_light::PointLightsUniforms;
use crate::scene::{Scene, UiFrame};
use crate::ui::{first_failure, planned_upto, UiDraw, UiError, UiPass};
use crate::uniform::CameraUniform;
use crate::words::Matrix4;

verus! {

/// A size in pixels.
#[derive(Clone, Copy, Debug, PartialEq, Eq, Structural)]
pub struct Extent {
    pub width: u32,
    pub height: u32,
}

/// What came of asking the surface for its next image.
#[derive(Clone, Copy, Debug, PartialEq, Eq, Structural)]
pub enum SurfaceImage {
    /// There is an image to draw into.
    Ready,
    /// The surface no longer fits the window: no image this frame.
    Stale,
}

/// One pass of a frame, ready to be recorded.
pub struct PassPlan {
    pub header: PassHeader,
    pub descriptor: RenderPassDescriptor,
    pub draws: Vec<Draw>,
}

/// The start of a frame: there is an image to draw into, and this is the
/// camera uniform that is written before anything else happens.
///
/// Only [`WgpuRenderer::begin_frame`] makes one, and
/// [`WgpuRenderer::render_frame`] uses it up: the asset queue is drained and
/// passes are laid out only after the camera uniform was handed out, and
/// once for each frame.
pub struct FrameStart {
    camera: CameraUniform,
}

impl FrameStart {
    /// The camera uniform of the frame, as a value.
    pub closed spec fn spec_camera(&self) -> CameraUniform {
        self.camera
    }

    /// The camera uniform of the frame: what every pass reads of the
    /// camera. It is written first.
    #[verifier::when_used_as_spec(spec_camera)]
    pub fn camera(&self) -> (camera: CameraUniform)
        ensures
            camera == self.spec_camera(),
    {
        self.camera
    }
}

/// What is recorded of a frame once its camera uniform is written and its
/// assets are loaded, in this order: the instance copies, the point light
/// uniform, then the passes one after the other, each preceded by what it
/// writes into its private uniform. All of it is submitted as one batch.
pub struct FramePlan {
    pub upload: InstanceUpload,
    pub point_lights: PointLightsUniforms,
    /// The directional light uniform, where the scene has such a light.
    pub directional_light: Option<DirectionalLightRaw>,
    /// The model matrix of each water surface, in scene order.
    pub surface_matrices: Vec<Matrix4>,
    pub passes: Vec<PassPlan>,
    /// The draws of each user-interface draw list.
    pub ui_draws: Vec<Vec<UiDraw>>,
    /// The size of the depth attachment that the main sequence shares.
    pub depth_size: Extent,
}

/// One step of recording a frame.
#[derive(Clone, Copy, Debug, PartialEq, Eq, Structural)]
pub enum Command {
    /// Copy number `copy` of the instance upload.
    CopyInstances { copy: usize },
    /// Write the point light uniform.
    WritePointLights,
    /// Write the private uniform of pass number `pass`.
    WritePassUniform { pass: usize },
    /// Record pass number `pass`.
    RenderPass { pass: usize },
    /// Submit everything recorded as one batch.
    Submit,
}

/// The commands of the first `n` passes: each pass, preceded by the write of
/// its private uniform where it has one.
pub open spec fn pass_commands(headers: Seq<PassHeader>, n: int) -> Seq<Command>
    decreases n,
{
    if n <= 0 {
        Seq::empty()
    } else {
        let before = pass_commands(headers, n - 1);
        let written = if headers[n - 1].uniform is Some {
            before.push(Command::WritePassUniform { pass: (n - 1) as usize })
        } else {
            before
        };
        written.push(Command::RenderPass { pass: (n - 1) as usize })
    }
}

/// The commands that copy `copies` instance runs.
pub open spec fn copy_commands(copies: nat) -> Seq<Command> {
    Seq::new(copies, |i: int| Command::CopyInstances { copy: i as usize })
}

/// The order in which a frame is recorded.
pub open spec fn recording(copies: nat, headers: Seq<PassHeader>) -> Seq<Command> {
    copy_commands(copies) + seq![Command::WritePointLights] + pass_commands(headers, headers.len() as int)
        + seq![Command::Submit]
}

/// The headers of the passes of a plan.
pub open spec fn headers_of(passes: Seq<PassPlan>) -> Seq<PassHeader> {
    Seq::new(passes.len(), |k: int| passes[k].header)
}

/// Whether a command writes what passes read: instance matrices or the
/// point light uniform.
pub open spec fn is_upload(command: Command) -> bool {
    command is CopyInstances || command is WritePointLights
}

proof fn lemma_pass_commands(headers: Seq<PassHeader>, n: int)
    requires
        0 <= n <= headers.len(),
    ensures
        forall|k: int|
            0 <= k < pass_commands(headers, n).len() ==> !is_upload(#[trigger] pass_commands(headers, n)[k])
                && !(pass_commands(headers, n)[k] is Submit),
    decreases n,
{
    if n > 0 {
        lemma_pass_commands(headers, n - 1);
    }
}

/// Uploads happen before the draws that read them: in the recording of a
/// frame every write of shared data precedes every pass, and the submission
/// comes last.
pub proof fn lemma_uploads_before_passes(copies: nat, headers: Seq<PassHeader>, a: int, b: int)
    requires
        0 <= a < recording(copies, headers).len(),
        0 <= b < recording(copies, headers).len(),
        is_upload(recording(copies, headers)[a]),
        recording(copies, headers)[b] is RenderPass,
    ensures
        a < b,
        recording(copies, headers).last() == Command::Submit,
{
    lemma_pass_commands(headers, headers.len() as int);
}

/// Shared uniforms have one writer: in the recording of a frame the point
/// light uniform is written once, after the instance copies, and the frame
/// is submitted once, at the very end.
pub proof fn lemma_shared_uniforms_written_once(copies: nat, headers: Seq<PassHeader>, a: int)
    requires
        0 <= a < recording(copies, headers).len(),
    ensures
        recording(copies, headers)[a] is WritePointLights <==> a == copies,
        recording(copies, headers)[a] is Submit <==> a == recording(copies, headers).len() - 1,
{
    lemma_pass_commands(headers, headers.len() as int);
    let passes = pass_commands(headers, headers.len() as int);
    if a > copies && a < recording(copies, headers).len() - 1 {
        assert(recording(copies, headers)[a] == passes[a - copies - 1]);
    }
}

impl FramePlan {
    /// The order in which the frame is recorded.
    pub fn commands(&self) -> (commands: Vec<Command>)
        ensures
            commands@ == recording(self.upload.copies@.len(), headers_of(self.passes@)),
    {
        let ghost headers = headers_of(self.passes@);
        let mut commands: Vec<Command> = Vec::new();
        let mut c: usize = 0;
        while c < self.upload.copies.len()
            invariant
                c <= self.upload.copies@.len(),
                commands@ == copy_commands(c as nat),
            decreases self.upload.copies.len() - c,
        {
            commands.push(Command::CopyInstances { copy: c });
            assert(commands@ =~= copy_commands((c + 1) as nat));
            c = c + 1;
        }
        commands.push(Command::WritePointLights);
        let ghost head = commands@;
        let mut p: usize = 0;
        while p < self.passes.len()
            invariant
                p <= self.passes@.len(),
                headers == headers_of(self.passes@),
                commands@ == head + pass_commands(headers, p as int),
            decreases self.passes.len() - p,
        {
            if self.passes[p].header.uniform.is_some() {
                commands.push(Command::WritePassUniform { pass: p });
            }
            commands.push(Command::RenderPass { pass: p });
            assert(commands@ =~= head + pass_commands(headers, p + 1));
            p = p + 1;
        }
        commands.push(Command::Submit);
        assert(commands@ =~= recording(self.upload.copies@.len(), headers));
        commands
    }
}

/// Why a frame was not drawn. None of these leaves a partial frame behind.
pub enum FrameError {
    /// A model could not be loaded.
    Load(LoadError),
    /// An entity group did not fit into the instance buffer of its model.
    Instances(InstanceOverflow),
    /// A user-interface draw list could not be drawn.
    Ui { list: usize, error: UiError },
}

/// How a frame begins.
pub enum Frame {
    /// There is an image: the camera uniform is to be written, then the
    /// frame goes on with [`WgpuRenderer::render_frame`].
    Started(FrameStart),
    /// The surface was stale. Nothing is loaded or drawn; swapchain and
    /// depth attachment are to be made anew in this size before the next
    /// frame.
    Skipped { recreate: Extent },
}

/// The orchestrator. A frame is made in two steps, in this order:
/// [`WgpuRenderer::begin_frame`] acquires the image and hands out the camera
/// uniform; [`WgpuRenderer::render_frame`] drains the asset queue, binds the
/// shadow layers and lays out uploads and passes.
pub struct WgpuRenderer {
    pub width: u32,
    pub height: u32,
    /// The size of the swapchain images.
    pub swap_chain: Extent,
    /// The size of the shared depth attachment.
    pub depth_texture: Extent,
    pub model_pass: ModelPass,
    pub light_pass: LightObjectPass,
    pub skybox_pass: SkyboxPass,
    pub shadow_pass: ShadowPass,
    pub water_pass: WaterEnvironmentPass,
    pub water_surface_pass: WaterSurfacePass,
    pub ui_pass: UiPass,
}

/// That `draws` is what the pass behind `header` draws for `scene`.
pub open spec fn pass_draws(assets: AssetsView, scene: Scene, header: PassHeader, draws: Seq<Draw>) -> bool {
    match header.kind {
        PassKind::Shadow => ShadowPass.draws(assets, scene, draws),
        PassKind::WaterEnvironment => WaterEnvironmentPass.draws(assets, scene, draws),
        PassKind::Skybox => SkyboxPass.draws(assets, scene, draws),
        PassKind::WaterSurface => WaterSurfacePass.draws(assets, scene, draws),
        PassKind::Model => ModelPass.draws(assets, scene, draws),
        PassKind::LightObject => LightObjectPass.draws(assets, scene, draws),
        PassKind::Ui => scene.ui is Some && {
            &&& draws.len() == scene.ui->0.draw_lists@.len()
            &&& forall|i: int| 0 <= i < draws.len() ==> #[trigger] draws[i] == (Draw::UiList { list: i as usize })
        },
    }
}

/// That `frame` has pixels and `draws` holds the draws of its first `n`
/// draw lists.
pub open spec fn ui_planned(textures: Seq<usize>, frame: UiFrame, draws: Seq<Vec<UiDraw>>, n: int) -> bool {
    &&& frame.width > 0 && frame.height > 0
    &&& draws.len() == n
    &&& forall|i: int|
        0 <= i < n ==> planned_upto(
            textures,
            frame.width,
            frame.height,
            frame.draw_lists@[i]@,
            frame.draw_lists@[i]@.len() as int,
        ) == Some((#[trigger] draws[i])@)
}

/// That `frame` cannot be drawn, and why. A frame without pixels is refused
/// as a whole, whatever it holds, and reported under list 0. In a frame
/// with pixels draw list `list` is the first that fails, and fails with
/// `error`.
pub open spec fn ui_frame_fails(textures: Seq<usize>, frame: UiFrame, list: int, error: UiError) -> bool {
    if frame.width == 0 || frame.height == 0 {
        list == 0 && error == UiError::EmptyFrame
    } else {
        &&& 0 <= list < frame.draw_lists@.len()
        &&& exists|draws: Seq<Vec<UiDraw>>| #[trigger] ui_planned(textures, frame, draws, list)
        &&& exists|at: int| #[trigger]
            first_failure(textures, frame.width, frame.height, frame.draw_lists@[list]@, at, error)
    }
}

impl WgpuRenderer {
    /// A renderer for a window of the given size.
    pub fn new(width: u32, height: u32) -> (renderer: WgpuRenderer)
        ensures
            renderer.sized(width, height),
            renderer.ui_pass.textures@.len() == 0,
    {
        WgpuRenderer {
            width,
            height,
            swap_chain: Extent { width, height },
            depth_texture: Extent { width, height },
            model_pass: ModelPass::new(),
            light_pass: LightObjectPass::new(),
            skybox_pass: SkyboxPass::new(),
            shadow_pass: ShadowPass::new(),
            water_pass: WaterEnvironmentPass::new(),
            water_surface_pass: WaterSurfacePass::new(),
            ui_pass: UiPass::new(),
        }
    }

    /// That everything that depends on the size of the window has this size.
    pub open spec fn sized(&self, width: u32, height: u32) -> bool {
        &&& self.width == width
        &&& self.height == height
        &&& self.swap_chain == (Extent { width, height })
        &&& self.depth_texture == (Extent { width, height })
    }

    /// Follows a resize of the window: swapchain and depth attachment take
    /// the new size before the next frame begins.
    pub fn resize(&mut self, width: u32, height: u32)
        ensures
            final(self).sized(width, height),
            final(self).ui_pass == old(self).ui_pass,
    {
        self.height = height;
        self.width = width;
        self.swap_chain = Extent { width, height };
        self.depth_texture = Extent { width, height };
    }

    /// That `plan` is the frame of `scene`.
    pub open spec fn plans(&self, assets: AssetsView, scene: Scene, plan: FramePlan) -> bool {
        let headers = frame_headers(scene.lights@, scene.surfaces@, scene.ui is Some);
        &&& fits(assets, scene.chunks@, scene.chunks@.len() as int)
        &&& plan.upload.staging@ == staged(assets, scene.chunks@, scene.chunks@.len() as int)
        &&& is_copy_list(assets, scene.chunks@, plan.upload.copies@)
        &&& plan.upload.offsets@ == offset_map(assets, scene.chunks@)
        &&& plan.point_lights.gathers(raw_lights(scene.lights@))
        &&& plan.directional_light == match scene.sun {
            Some(sun) => Some(DirectionalLightRaw::packed(sun.light, sun.light_space_matrix)),
            None => None,
        }
        &&& plan.surface_matrices@.len() == scene.surfaces@.len()
        &&& forall|i: int|
            0 <= i < scene.surfaces@.len() ==> #[trigger] plan.surface_matrices@[i]
                == scene.surfaces@[i].model_matrix
        &&& plan.passes@.len() == headers.len()
        &&& forall|k: int|
            0 <= k < headers.len() ==> {
                &&& (#[trigger] plan.passes@[k]).header == headers[k]
                &&& plan.passes@[k].descriptor == descriptor_of(headers, k)
                &&& pass_draws(assets, scene, headers[k], plan.passes@[k].draws@)
            }
        &&& match scene.ui {
            None => plan.ui_draws@.len() == 0,
            Some(frame) => ui_planned(
                self.ui_pass.textures@,
                frame,
                plan.ui_draws@,
                frame.draw_lists@.len() as int,
            ),
        }
        &&& plan.depth_size == self.depth_texture
    }

    /// That the user interface of `scene` cannot be drawn, and why.
    pub open spec fn ui_fails(&self, scene: Scene, list: usize, error: UiError) -> bool {
        &&& scene.ui is Some
        &&& ui_frame_fails(self.ui_pass.textures@, scene.ui->0, list as int, error)
    }

    /// The draws of every user-interface draw list of a frame. A frame
    /// without pixels is refused before any list is looked at, also where
    /// it has no list.
    pub fn plan_ui(&self, frame: &UiFrame) -> (res: Result<Vec<Vec<UiDraw>>, (usize, UiError)>)
        ensures
            match res {
                Ok(draws) => ui_planned(
                    self.ui_pass.textures@,
                    *frame,
                    draws@,
                    frame.draw_lists@.len() as int,
                ),
                Err((list, error)) => ui_frame_fails(self.ui_pass.textures@, *frame, list as int, error),
            },
    {
        if frame.width == 0 || frame.height == 0 {
            return Err((0, UiError::EmptyFrame));
        }
        let mut all: Vec<Vec<UiDraw>> = Vec::new();
        let mut i: usize = 0;
        while i < frame.draw_lists.len()
            invariant
                i <= frame.draw_lists@.len(),
                ui_planned(self.ui_pass.textures@, *frame, all@, i as int),
            decreases frame.draw_lists.len() - i,
        {
            match self.ui_pass.render(frame.width, frame.height, &frame.draw_lists[i]) {
                Ok(draws) => {
                    all.push(draws);
                },
                Err(error) => {
                    return Err((i, error));
                },
            }
            i = i + 1;
        }
        Ok(all)
    }

    /// Lays out the frame of a scene whose assets are loaded and whose
    /// lights have their shadow layers.
    fn plan_frame(&self, assets: &AssetManager, scene: &Scene) -> (res: Result<FramePlan, FrameError>)
        requires
            assets.wf(),
        ensures
            match res {
                Ok(plan) => self.plans(assets@, *scene, plan),
                Err(FrameError::Instances(e)) => first_overflow(assets@, scene.chunks@, e),
                Err(FrameError::Ui { list, error }) => {
                    &&& fits(assets@, scene.chunks@, scene.chunks@.len() as int)
                    &&& self.ui_fails(*scene, list, error)
                },
                Err(FrameError::Load(_)) => false,
            },
    {
        let upload = match upload_instances(assets, &scene.chunks) {
            Ok(upload) => upload,
            Err(e) => {
                return Err(FrameError::Instances(e));
            },
        };
        let point_lights = self.model_pass.update_lights(&scene.lights);
        let directional_light = match &scene.sun {
            Some(sun) => Some(sun.raw()),
            None => None,
        };
        let surface_matrices = self.water_surface_pass.model_matrices(&scene.surfaces);
        let ui_draws: Vec<Vec<UiDraw>> = match &scene.ui {
            None => Vec::new(),
            Some(frame) => match self.plan_ui(frame) {
                Ok(draws) => draws,
                Err((list, error)) => {
                    return Err(FrameError::Ui { list, error });
                },
            },
        };
        let headers = plan_passes(&scene.lights, &scene.surfaces, scene.ui.is_some());
        let mut passes: Vec<PassPlan> = Vec::new();
        let mut k: usize = 0;
        while k < headers.len()
            invariant
                assets.wf(),
                k <= headers@.len(),
                headers@ == frame_headers(scene.lights@, scene.surfaces@, scene.ui is Some),
                fits(assets@, scene.chunks@, scene.chunks@.len() as int),
                passes@.len() == k,
                forall|j: int|
                    0 <= j < k ==> {
                        &&& (#[trigger] passes@[j]).header == headers@[j]
                        &&& passes@[j].descriptor == descriptor_of(headers@, j)
                        &&& pass_draws(assets@, *scene, headers@[j], passes@[j].draws@)
                    },
            decreases headers.len() - k,
        {
            let header = headers[k];
            let descriptor = pass_descriptor(&headers, k);
            let drawn = match header.kind {
                PassKind::Shadow => self.shadow_pass.render(assets, scene),
                PassKind::WaterEnvironment => self.water_pass.render(assets, scene),
                PassKind::Skybox => self.skybox_pass.render(assets, scene),
                PassKind::WaterSurface => self.water_surface_pass.render(assets, scene),
                PassKind::Model => self.model_pass.render(assets, scene),
                PassKind::LightObject => self.light_pass.render(assets, scene),
                PassKind::Ui => Ok(self.ui_lists(scene)),
            };
            let draws = match drawn {
                Ok(draws) => draws,
                Err(e) => {
                    proof {
                        let i = choose|i: int|
                            {
                                &&& 0 <= i < scene.chunks@.len()
                                &&& fits(assets@, scene.chunks@, i)
                                &&& #[trigger] overflows_at(assets@, scene.chunks@, i)
                                &&& e == crate::instancing::overflow_of(assets@, scene.chunks@, i)
                            };
                        assert(!overflows_at(assets@, scene.chunks@, i));
                    }
                    return Err(FrameError::Instances(e));
                },
            };
            proof {
                if header.kind == PassKind::Ui {
                    lemma_ui_pass_has_ui(scene.lights@, scene.surfaces@, scene.ui is Some, k as int);
                }
            }
            passes.push(PassPlan { header, descriptor, draws });
            k = k + 1;
        }
        Ok(
            FramePlan {
                upload,
                point_lights,
                directional_light,
                surface_matrices,
                passes,
                ui_draws,
                depth_size: self.depth_texture,
            },
        )
    }

    /// Begins a frame.
    ///
    /// With a stale surface nothing happens but the answer that swapchain
    /// and depth attachment are to be made anew. With an image to draw into,
    /// the camera uniform of the scene is handed out: it is written before
    /// the asset queue is drained and before anything is recorded.
    pub fn begin_frame(&self, image: SurfaceImage, scene: &Scene) -> (frame: Frame)
        ensures
            match image {
                SurfaceImage::Stale => frame matches Frame::Skipped { recreate } && recreate
                    == self.swap_chain,
                SurfaceImage::Ready => frame matches Frame::Started(start) && start.spec_camera()
                    == scene.camera,
            },
    {
        match image {
            SurfaceImage::Stale => Frame::Skipped { recreate: self.swap_chain },
            SurfaceImage::Ready => Frame::Started(FrameStart { camera: scene.camera }),
        }
    }

    /// The rest of a frame that has begun, in this order: the load queue is
    /// drained through `loader`, every light that has none takes a free
    /// layer of the shadow texture, and the frame is laid out.
    ///
    /// A model that fails to load, an entity group that does not fit and a
    /// user interface that cannot be drawn end the frame with their error,
    /// in this order of precedence.
    pub fn render_frame<F: Fn(&String) -> Result<Model, String>>(
        &self,
        start: FrameStart,
        assets: &mut AssetManager,
        scene: &mut Scene,
        loader: F,
    ) -> (res: Result<FramePlan, FrameError>)
        requires
            old(assets).wf(),
            forall|k: int|
                0 <= k < old(assets)@.pending.len() ==> call_requires(
                    loader,
                    (&old(assets)@.paths[(#[trigger] old(assets)@.pending[k]).id as int],),
                ),
        ensures
            final(assets).wf(),
            match res {
                Err(FrameError::Load(e)) => {
                    &&& old(assets)@.drain_failed(loader, final(assets)@, e)
                    &&& *final(scene) == *old(scene)
                },
                Err(FrameError::Instances(e)) => {
                    &&& old(assets)@.drained(loader, final(assets)@)
                    &&& lights_bound(*old(scene), *final(scene))
                    &&& first_overflow(final(assets)@, final(scene).chunks@, e)
                },
                Err(FrameError::Ui { list, error }) => {
                    &&& old(assets)@.drained(loader, final(assets)@)
                    &&& lights_bound(*old(scene), *final(scene))
                    &&& fits(final(assets)@, final(scene).chunks@, final(scene).chunks@.len() as int)
                    &&& self.ui_fails(*final(scene), list, error)
                },
                Ok(plan) => {
                    &&& old(assets)@.drained(loader, final(assets)@)
                    &&& lights_bound(*old(scene), *final(scene))
                    &&& self.plans(final(assets)@, *final(scene), plan)
                },
            },
    {
        match assets.clear_load_queue(loader) {
            Ok(_) => {},
            Err(e) => {
                return Err(FrameError::Load(e));
            },
        }
        self.shadow_pass.update_lights_with_texture_view(&mut scene.lights);
        self.plan_frame(assets, scene)
    }

    /// One draw for each user-interface draw list of the scene.
    fn ui_lists(&self, scene: &Scene) -> (draws: Vec<Draw>)
        ensures
            match scene.ui {
                None => draws@.len() == 0,
                Some(frame) => {
                    &&& draws@.len() == frame.draw_lists@.len()
                    &&& forall|i: int|
                        0 <= i < draws@.len() ==> #[trigger] draws@[i] == (Draw::UiList { list: i as usize })
                },
            },
    {
        let mut draws: Vec<Draw> = Vec::new();
        match &scene.ui {
            None => {},
            Some(frame) => {
                let mut i: usize = 0;
                while i < frame.draw_lists.len()
                    invariant
                        i <= frame.draw_lists@.len(),
                        draws@.len() == i,
                        forall|j: int| 0 <= j < i ==> #[trigger] draws@[j] == (Draw::UiList { list: j as usize }),
                    decreases frame.draw_lists.len() - i,
                {
                    draws.push(Draw::UiList { list: i });
                    i = i + 1;
                }
            },
        }
        draws
    }
}

/// That `after` is `before` with the shadow layers of its lights assigned,
/// and nothing else changed.
pub open spec fn lights_bound(before: Scene, after: Scene) -> bool {
    &&& after.camera == before.camera
    &&& after.chunks == before.chunks
    &&& after.surfaces == before.surfaces
    &&& after.sun == before.sun
    &&& after.ui == before.ui
    &&& assigned(before.lights@, after.lights@)
}

/// Resize safety: a frame that is laid out after a resize has a depth
/// attachment of exactly the new size, whatever the scene holds.
pub proof fn lemma_resize_sets_depth(
    renderer: WgpuRenderer,
    width: u32,
    height: u32,
    assets: AssetsView,
    scene: Scene,
    plan: FramePlan,
)
    requires
        renderer.sized(width, height),
        renderer.plans(assets, scene, plan),
    ensures
        plan.depth_size == (Extent { width, height }),
{
}

/// Whether a pass draws entity groups, and which.
pub open spec fn filter_of(kind: PassKind) -> Option<EntityFilter> {
    match kind {
        PassKind::Shadow | PassKind::WaterEnvironment | PassKind::Model => Some(EntityFilter::WithoutLight),
        PassKind::LightObject => Some(EntityFilter::WithLight),
        _ => None,
    }
}

/// In a frame no pass draws more or fewer instances than were uploaded:
/// every model draw of every pass reads exactly the range that one instance
/// copy of the same frame writes, in the same model.
pub proof fn lemma_frame_draws_what_it_uploads(
    renderer: WgpuRenderer,
    assets: AssetsView,
    scene: Scene,
    plan: FramePlan,
    pass: int,
    draw: int,
)
    requires
        renderer.plans(assets, scene, plan),
        0 <= pass < plan.passes@.len(),
        0 <= draw < plan.passes@[pass].draws@.len(),
        plan.passes@[pass].draws@[draw] is Model,
    ensures
        written_by(plan.upload.copies@, plan.passes@[pass].draws@[draw]->call),
{
    let headers = frame_headers(scene.lights@, scene.surfaces@, scene.ui is Some);
    let planned = plan.passes@[pass];
    let chunks = scene.chunks@;
    assert(planned.header == headers[pass]);
    assert(pass_draws(assets, scene, headers[pass], planned.draws@));
    let kind = headers[pass].kind;
    if filter_of(kind) is Some {
        let filter = filter_of(kind)->0;
        let picked = selected(assets, chunks, filter, chunks.len() as int);
        let calls = Seq::new(picked.len(), |k: int| draw_of(chunks, picked[k]));
        assert(planned.draws@[draw]->call == calls[draw]);
        lemma_draws_read_copies(assets, chunks, filter, calls, plan.upload.copies@);
    } else if kind == PassKind::Skybox {
        assert(planned.draws@[draw] is Vertices);
    } else if kind == PassKind::WaterSurface {
        assert(planned.draws@[draw] == crate::pass::water_surface_pass::surface_draw(scene.surfaces@, draw));
    } else {
        assert(planned.draws@[draw] is UiList);
    }
}

/// A frame has a user-interface pass only where the scene has a user
/// interface.
pub proof fn lemma_ui_pass_has_ui(
    lights: Seq<crate::scene::LightEntity>,
    surfaces: Seq<crate::scene::Surface>,
    ui: bool,
    k: int,
)
    requires
        0 <= k < frame_headers(lights, surfaces, ui).len(),
        frame_headers(lights, surfaces, ui)[k].kind == PassKind::Ui,
    ensures
        ui,
{
    crate::frame::lemma_prepasses(lights, surfaces, lights.len() as int);
}

} // verus!
