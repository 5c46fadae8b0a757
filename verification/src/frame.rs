//! The order of the passes of a frame and the attachments of each pass.
//!
//! The order is fixed: one shadow pass for each light that has its layer of
//! the shadow texture, one environment pass for each water surface, then the
//! main sequence: skybox, water surfaces if there are any, opaque models,
//! light markers, and the user interface if there is one. A pass clears an
//! attachment if it is the first of the frame to draw into it, and loads it
//! otherwise.

use vstd::prelude::*;
use crate::pass::{Attachment, AttachmentOps, LoadOp, PassKind, PassTargets, RenderPassDescriptor};
use crate::point_light::ShadowBinding;
use crate::scene::{LightEntity, Surface};
use crate::uniform::LightSpaceMatrix;

verus! {

/// What is known of a pass before its draws are planned.
#[derive(Clone, Copy, Debug, PartialEq, Eq, Structural)]
pub struct PassHeader {
    pub kind: PassKind,
    /// The light of a shadow pass or the surface of an environment pass, by
    /// its index in the scene.
    pub source: Option<usize>,
    pub targets: PassTargets,
    /// What the pass writes into its private uniform before it draws.
    pub uniform: Option<LightSpaceMatrix>,
}

/// The header of the shadow pass of light `i`, which is bound to `layer`.
pub open spec fn shadow_header(lights: Seq<LightEntity>, i: int, layer: u32) -> PassHeader {
    PassHeader {
        kind: PassKind::Shadow,
        source: Some(i as usize),
        targets: PassTargets { color: None, depth: Some(Attachment::ShadowLayer(layer)) },
        uniform: Some(LightSpaceMatrix { light_space_matrix: lights[i].light_space_matrix }),
    }
}

/// The header of the environment pass of surface `i`.
pub open spec fn environment_header(surfaces: Seq<Surface>, i: int) -> PassHeader {
    PassHeader {
        kind: PassKind::WaterEnvironment,
        source: Some(i as usize),
        targets: PassTargets { color: Some(Attachment::WaterMap), depth: None },
        uniform: Some(LightSpaceMatrix { light_space_matrix: surfaces[i].environment_matrix }),
    }
}

/// The header of a pass of the main sequence.
pub open spec fn main_header(kind: PassKind) -> PassHeader {
    PassHeader {
        kind,
        source: None,
        targets: PassTargets {
            color: Some(Attachment::Swapchain),
            depth: if kind == PassKind::Skybox {
                None
            } else {
                Some(Attachment::Depth)
            },
        },
        uniform: None,
    }
}

/// The shadow passes of the first `n` lights: one for each bound light, in
/// scene order. A light without a layer is passed over.
pub open spec fn shadow_headers(lights: Seq<LightEntity>, n: int) -> Seq<PassHeader>
    decreases n,
{
    if n <= 0 {
        Seq::empty()
    } else {
        match lights[n - 1].light.target_view {
            ShadowBinding::Bound { layer } => shadow_headers(lights, n - 1).push(
                shadow_header(lights, n - 1, layer),
            ),
            ShadowBinding::Unassigned => shadow_headers(lights, n - 1),
        }
    }
}

/// The environment passes: one for each water surface, in scene order.
pub open spec fn environment_headers(surfaces: Seq<Surface>) -> Seq<PassHeader> {
    Seq::new(surfaces.len(), |i: int| environment_header(surfaces, i))
}

/// The main sequence.
pub open spec fn main_headers(water: bool, ui: bool) -> Seq<PassHeader> {
    seq![main_header(PassKind::Skybox)] + (if water {
        seq![main_header(PassKind::WaterSurface)]
    } else {
        Seq::empty()
    }) + seq![main_header(PassKind::Model), main_header(PassKind::LightObject)] + (if ui {
        seq![main_header(PassKind::Ui)]
    } else {
        Seq::empty()
    })
}

/// The passes of a frame, in the order in which they are recorded.
pub open spec fn frame_headers(lights: Seq<LightEntity>, surfaces: Seq<Surface>, ui: bool) -> Seq<PassHeader> {
    shadow_headers(lights, lights.len() as int) + environment_headers(surfaces) + main_headers(
        surfaces.len() > 0,
        ui,
    )
}

/// Before the main sequence stand shadow passes, then environment passes,
/// and nothing else.
pub proof fn lemma_prepasses(lights: Seq<LightEntity>, surfaces: Seq<Surface>, n: int)
    requires
        0 <= n <= lights.len(),
    ensures
        shadow_headers(lights, n).len() <= n,
        forall|k: int|
            0 <= k < shadow_headers(lights, n).len() ==> (#[trigger] shadow_headers(lights, n)[k]).kind
                == PassKind::Shadow,
        forall|k: int|
            0 <= k < environment_headers(surfaces).len() ==> (#[trigger] environment_headers(
                surfaces,
            )[k]).kind == PassKind::WaterEnvironment,
    decreases n,
{
    if n > 0 {
        lemma_prepasses(lights, surfaces, n - 1);
    }
}

/// Whether a pass belongs to the main sequence.
pub open spec fn in_main_sequence(kind: PassKind) -> bool {
    kind != PassKind::Shadow && kind != PassKind::WaterEnvironment
}

/// Pass ordering: every shadow pass and every environment pass of a frame is
/// recorded before every pass of the main sequence. What the opaque pass
/// samples has been drawn when the opaque pass is recorded.
pub proof fn lemma_prepasses_come_first(
    lights: Seq<LightEntity>,
    surfaces: Seq<Surface>,
    ui: bool,
    i: int,
    j: int,
)
    requires
        0 <= i < frame_headers(lights, surfaces, ui).len(),
        0 <= j < frame_headers(lights, surfaces, ui).len(),
        !in_main_sequence(frame_headers(lights, surfaces, ui)[i].kind),
        in_main_sequence(frame_headers(lights, surfaces, ui)[j].kind),
    ensures
        i < j,
{
    lemma_prepasses(lights, surfaces, lights.len() as int);
}

/// Every light that is bound to a layer has its shadow pass in the frame,
/// and that pass draws into the layer of the light.
pub proof fn lemma_bound_light_has_pass(lights: Seq<LightEntity>, surfaces: Seq<Surface>, ui: bool, light: int)
    requires
        0 <= light < lights.len(),
        lights[light].light.target_view is Bound,
    ensures
        exists|k: int|
            0 <= k < frame_headers(lights, surfaces, ui).len() && #[trigger] frame_headers(
                lights,
                surfaces,
                ui,
            )[k] == shadow_header(lights, light, lights[light].light.target_view->layer),
{
    lemma_shadow_pass_of(lights, lights.len() as int, light);
    let shadows = shadow_headers(lights, lights.len() as int);
    let wanted = shadow_header(lights, light, lights[light].light.target_view->layer);
    let k = choose|k: int| 0 <= k < shadows.len() && shadows[k] == wanted;
    assert(frame_headers(lights, surfaces, ui)[k] == wanted);
}

proof fn lemma_shadow_pass_of(lights: Seq<LightEntity>, n: int, light: int)
    requires
        0 <= light < n <= lights.len(),
        lights[light].light.target_view is Bound,
    ensures
        exists|k: int|
            0 <= k < shadow_headers(lights, n).len() && #[trigger] shadow_headers(lights, n)[k]
                == shadow_header(lights, light, lights[light].light.target_view->layer),
    decreases n,
{
    let wanted = shadow_header(lights, light, lights[light].light.target_view->layer);
    let now = shadow_headers(lights, n);
    if light == n - 1 {
        assert(now[now.len() - 1] == wanted);
    } else {
        lemma_shadow_pass_of(lights, n - 1, light);
        let before = shadow_headers(lights, n - 1);
        let k = choose|k: int| 0 <= k < before.len() && before[k] == wanted;
        assert(now[k] == wanted);
    }
}

/// Whether a pass draws into `attachment`.
pub open spec fn draws_into(header: PassHeader, attachment: Attachment) -> bool {
    header.targets.color == Some(attachment) || header.targets.depth == Some(attachment)
}

/// Whether one of the first `k` passes draws into `attachment`.
pub open spec fn written_before(headers: Seq<PassHeader>, k: int, attachment: Attachment) -> bool {
    exists|j: int| 0 <= j < k && draws_into(#[trigger] headers[j], attachment)
}

/// How pass `k` treats `attachment`: the first pass to draw into it clears
/// it, every later pass loads it.
pub open spec fn ops_of(headers: Seq<PassHeader>, k: int, attachment: Option<Attachment>) -> Option<
    AttachmentOps,
> {
    match attachment {
        None => None,
        Some(target) => Some(
            AttachmentOps {
                target,
                load: if written_before(headers, k, target) {
                    LoadOp::Load
                } else {
                    LoadOp::Clear
                },
            },
        ),
    }
}

/// The descriptor of pass `k`.
pub open spec fn descriptor_of(headers: Seq<PassHeader>, k: int) -> RenderPassDescriptor {
    RenderPassDescriptor {
        color: ops_of(headers, k, headers[k].targets.color),
        depth: ops_of(headers, k, headers[k].targets.depth),
    }
}

/// Lists the passes of a frame in recording order.
pub fn plan_passes(lights: &Vec<LightEntity>, surfaces: &Vec<Surface>, ui: bool) -> (headers: Vec<PassHeader>)
    ensures
        headers@ == frame_headers(lights@, surfaces@, ui),
{
    let mut headers: Vec<PassHeader> = Vec::new();
    let mut i: usize = 0;
    while i < lights.len()
        invariant
            i <= lights@.len(),
            headers@ == shadow_headers(lights@, i as int),
        decreases lights.len() - i,
    {
        match lights[i].light.target_view {
            ShadowBinding::Bound { layer } => {
                headers.push(
                    PassHeader {
                        kind: PassKind::Shadow,
                        source: Some(i),
                        targets: PassTargets { color: None, depth: Some(Attachment::ShadowLayer(layer)) },
                        uniform: Some(LightSpaceMatrix { light_space_matrix: lights[i].light_space_matrix }),
                    },
                );
            },
            ShadowBinding::Unassigned => {},
        }
        i = i + 1;
    }
    let ghost shadows = headers@;
    let mut s: usize = 0;
    while s < surfaces.len()
        invariant
            s <= surfaces@.len(),
            headers@.len() == shadows.len() + s,
            forall|j: int| 0 <= j < shadows.len() ==> #[trigger] headers@[j] == shadows[j],
            forall|j: int|
                shadows.len() <= j < headers@.len() ==> #[trigger] headers@[j] == environment_header(
                    surfaces@,
                    j - shadows.len(),
                ),
        decreases surfaces.len() - s,
    {
        headers.push(
            PassHeader {
                kind: PassKind::WaterEnvironment,
                source: Some(s),
                targets: PassTargets { color: Some(Attachment::WaterMap), depth: None },
                uniform: Some(LightSpaceMatrix { light_space_matrix: surfaces[s].environment_matrix }),
            },
        );
        s = s + 1;
    }
    assert(headers@ =~= shadows + environment_headers(surfaces@));
    let ghost before_main = headers@;
    headers.push(main_pass(PassKind::Skybox));
    if surfaces.len() > 0 {
        headers.push(main_pass(PassKind::WaterSurface));
    }
    headers.push(main_pass(PassKind::Model));
    headers.push(main_pass(PassKind::LightObject));
    if ui {
        headers.push(main_pass(PassKind::Ui));
    }
    assert(headers@ =~= before_main + main_headers(surfaces@.len() > 0, ui));
    headers
}

/// The header of a pass of the main sequence.
pub fn main_pass(kind: PassKind) -> (header: PassHeader)
    ensures
        header == main_header(kind),
{
    let depth = match kind {
        PassKind::Skybox => None,
        _ => Some(Attachment::Depth),
    };
    PassHeader { kind, source: None, targets: PassTargets { color: Some(Attachment::Swapchain), depth }, uniform: None }
}

/// How pass `k` of `headers` treats an attachment.
pub fn attachment_ops(headers: &Vec<PassHeader>, k: usize, attachment: Option<Attachment>) -> (ops: Option<
    AttachmentOps,
>)
    requires
        k <= headers@.len(),
    ensures
        ops == ops_of(headers@, k as int, attachment),
{
    match attachment {
        None => None,
        Some(target) => {
            let mut written: bool = false;
            let mut j: usize = 0;
            while j < k
                invariant
                    j <= k <= headers@.len(),
                    written == written_before(headers@, j as int, target),
                decreases k - j,
            {
                let header = headers[j];
                let color = match header.targets.color {
                    Some(a) => a == target,
                    None => false,
                };
                let depth = match header.targets.depth {
                    Some(a) => a == target,
                    None => false,
                };
                proof {
                    if color || depth {
                        assert(draws_into(headers@[j as int], target));
                    }
                    if written_before(headers@, j + 1, target) && !written {
                        let w = choose|w: int| 0 <= w < j + 1 && draws_into(#[trigger] headers@[w], target);
                        assert(w == j);
                    }
                }
                if color || depth {
                    written = true;
                }
                j = j + 1;
            }
            Some(AttachmentOps { target, load: if written { LoadOp::Load } else { LoadOp::Clear } })
        },
    }
}

/// The descriptor of pass `k` of `headers`.
pub fn pass_descriptor(headers: &Vec<PassHeader>, k: usize) -> (descriptor: RenderPassDescriptor)
    requires
        k < headers@.len(),
    ensures
        descriptor == descriptor_of(headers@, k as int),
{
    let targets = headers[k].targets;
    RenderPassDescriptor {
        color: attachment_ops(headers, k, targets.color),
        depth: attachment_ops(headers, k, targets.depth),
    }
}

} // verus!
