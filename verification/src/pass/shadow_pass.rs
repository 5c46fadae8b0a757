//! The shadow pass: the depth of the opaque scene as one light sees it, and
//! the rule that gives each light its layer of the shadow texture.

use vstd::prelude::*;
use crate::assets::{AssetManager, AssetsView};
use crate::instancing::{EntityFilter, InstanceOverflow};
use crate::pass::{is_model_draws, model_draws, Draw, Pass, PassKind, PassUpdate};
use crate::point_light::{PointLight, PointLightRaw, ShadowBinding, MAX_POINT_LIGHTS};
use crate::scene::{LightEntity, Scene};
use crate::uniform::LightSpaceMatrix;

verus! {

pub struct ShadowPass;

/// Whether one of `lights` is bound to `layer`.
pub open spec fn holds_layer(lights: Seq<LightEntity>, layer: u32) -> bool {
    exists|j: int|
        0 <= j < lights.len() && (#[trigger] lights[j]).light.target_view == (ShadowBinding::Bound { layer })
}

/// The lowest layer from `from` upwards that no light holds, or the number
/// of layers if every one of them is held.
pub open spec fn free_layer_from(lights: Seq<LightEntity>, from: int) -> int
    decreases MAX_POINT_LIGHTS - from,
{
    if from >= MAX_POINT_LIGHTS {
        MAX_POINT_LIGHTS as int
    } else if from >= 0 && !holds_layer(lights, from as u32) {
        from
    } else {
        free_layer_from(lights, from + 1)
    }
}

/// The lowest layer of the shadow texture that no light holds, if there is
/// one.
pub open spec fn free_layer(lights: Seq<LightEntity>) -> Option<u32> {
    if free_layer_from(lights, 0) < MAX_POINT_LIGHTS {
        Some(free_layer_from(lights, 0) as u32)
    } else {
        None
    }
}

/// `entity` bound to `layer`, and otherwise unchanged.
pub open spec fn bound_to(entity: LightEntity, layer: u32) -> LightEntity {
    LightEntity { light: PointLight { target_view: ShadowBinding::Bound { layer }, ..entity.light }, ..entity }
}

/// What noticing light `i` does to the lights.
///
/// A bound light keeps its layer. An unassigned light takes the lowest layer
/// that no light holds. It stays unassigned, and casts no shadow, only where
/// every layer is held.
pub open spec fn noticed(lights: Seq<LightEntity>, i: int) -> Seq<LightEntity> {
    match (lights[i].light.target_view, free_layer(lights)) {
        (ShadowBinding::Unassigned, Some(layer)) => lights.update(i, bound_to(lights[i], layer)),
        _ => lights,
    }
}

/// The lights after the first `n` of them have been noticed, one after the
/// other in scene order.
pub open spec fn noticed_upto(lights: Seq<LightEntity>, n: int) -> Seq<LightEntity>
    decreases n,
{
    if n <= 0 {
        lights
    } else {
        noticed(noticed_upto(lights, n - 1), n - 1)
    }
}

/// That `after` is what the pass makes of `before`: every light has been
/// noticed.
pub open spec fn assigned(before: Seq<LightEntity>, after: Seq<LightEntity>) -> bool {
    after == noticed_upto(before, before.len() as int)
}

/// That no two lights are bound to one layer, and every layer exists.
pub open spec fn layers_valid(lights: Seq<LightEntity>) -> bool {
    &&& forall|i: int|
        0 <= i < lights.len() ==> match (#[trigger] lights[i]).light.target_view {
            ShadowBinding::Bound { layer } => layer < MAX_POINT_LIGHTS,
            ShadowBinding::Unassigned => true,
        }
    &&& forall|i: int, j: int|
        0 <= i < j < lights.len() && (#[trigger] lights[i]).light.target_view is Bound
            ==> lights[i].light.target_view != (#[trigger] lights[j]).light.target_view
}

/// That every layer of the shadow texture is held by a light.
pub open spec fn all_layers_held(lights: Seq<LightEntity>) -> bool {
    forall|layer: u32| layer < MAX_POINT_LIGHTS ==> #[trigger] holds_layer(lights, layer)
}

/// That `after` has the lights of `before`, each with nothing changed but,
/// at most, its binding.
pub open spec fn same_lights(before: Seq<LightEntity>, after: Seq<LightEntity>) -> bool {
    &&& after.len() == before.len()
    &&& forall|i: int|
        0 <= i < before.len() ==> (#[trigger] after[i]) == (LightEntity {
            light: PointLight { target_view: after[i].light.target_view, ..before[i].light },
            ..before[i]
        })
}

/// What `free_layer_from` finds: a layer that no light holds, with every
/// layer between `from` and it held.
pub proof fn lemma_free_layer_from(lights: Seq<LightEntity>, from: int)
    requires
        0 <= from <= MAX_POINT_LIGHTS,
    ensures
        from <= free_layer_from(lights, from) <= MAX_POINT_LIGHTS,
        free_layer_from(lights, from) < MAX_POINT_LIGHTS ==> !holds_layer(
            lights,
            free_layer_from(lights, from) as u32,
        ),
        forall|layer: u32|
            from <= layer < free_layer_from(lights, from) ==> #[trigger] holds_layer(lights, layer),
    decreases MAX_POINT_LIGHTS - from,
{
    if from < MAX_POINT_LIGHTS && holds_layer(lights, from as u32) {
        lemma_free_layer_from(lights, from + 1);
    }
}

/// What noticing one light keeps and gives.
proof fn lemma_noticed(lights: Seq<LightEntity>, i: int)
    requires
        0 <= i < lights.len(),
    ensures
        same_lights(lights, noticed(lights, i)),
        forall|j: int| 0 <= j < lights.len() && j != i ==> #[trigger] noticed(lights, i)[j] == lights[j],
        lights[i].light.target_view is Bound ==> noticed(lights, i) == lights,
        forall|layer: u32| #[trigger] holds_layer(lights, layer) ==> holds_layer(noticed(lights, i), layer),
        layers_valid(lights) ==> layers_valid(noticed(lights, i)),
        noticed(lights, i)[i].light.target_view is Unassigned ==> all_layers_held(noticed(lights, i)),
{
    let after = noticed(lights, i);
    lemma_free_layer_from(lights, 0);
    assert forall|layer: u32| #[trigger] holds_layer(lights, layer) implies holds_layer(after, layer) by {
        let j = choose|j: int|
            0 <= j < lights.len() && (#[trigger] lights[j]).light.target_view == (ShadowBinding::Bound {
                layer,
            });
        assert(after[j].light.target_view == (ShadowBinding::Bound { layer }));
    }
    if layers_valid(lights) {
        assert forall|a: int, b: int|
            0 <= a < b < after.len() && (#[trigger] after[a]).light.target_view is Bound implies after[a].light.target_view
            != (#[trigger] after[b]).light.target_view by {
            if after[a].light.target_view == after[b].light.target_view {
                if a == i {
                    assert(lights[b].light.target_view == after[b].light.target_view);
                    assert(holds_layer(lights, free_layer_from(lights, 0) as u32));
                } else if b == i {
                    assert(lights[a].light.target_view == after[a].light.target_view);
                    if lights[i].light.target_view is Unassigned {
                        assert(holds_layer(lights, free_layer_from(lights, 0) as u32));
                    }
                } else {
                    assert(lights[a].light.target_view == lights[b].light.target_view);
                }
            }
        }
        assert forall|a: int| 0 <= a < after.len() implies match (#[trigger] after[a]).light.target_view {
            ShadowBinding::Bound { layer } => layer < MAX_POINT_LIGHTS,
            ShadowBinding::Unassigned => true,
        } by {
            if a != i {
                assert(after[a] == lights[a]);
            }
        }
    }
    if after[i].light.target_view is Unassigned {
        assert(after == lights);
        assert(free_layer(lights) is None);
    }
}

/// The binding of a light moves one way only: a bound light stays bound to
/// its layer, and nothing but bindings changes. An unassigned light is left
/// unassigned only where every layer is held. And the pass keeps the layers
/// valid: each layer exists and belongs to one light.
pub proof fn lemma_bindings_never_reverse(before: Seq<LightEntity>, after: Seq<LightEntity>)
    requires
        assigned(before, after),
    ensures
        same_lights(before, after),
        forall|i: int|
            0 <= i < before.len() && (#[trigger] before[i]).light.target_view is Bound ==> after[i]
                == before[i],
        forall|i: int|
            0 <= i < after.len() && (#[trigger] after[i]).light.target_view is Unassigned
                ==> all_layers_held(after),
        layers_valid(before) ==> layers_valid(after),
{
    lemma_noticed_upto(before, before.len() as int);
}

proof fn lemma_noticed_upto(lights: Seq<LightEntity>, n: int)
    requires
        0 <= n <= lights.len(),
    ensures
        same_lights(lights, noticed_upto(lights, n)),
        forall|i: int|
            0 <= i < lights.len() && (#[trigger] lights[i]).light.target_view is Bound ==> noticed_upto(
                lights,
                n,
            )[i] == lights[i],
        forall|i: int| n <= i < lights.len() ==> #[trigger] noticed_upto(lights, n)[i] == lights[i],
        forall|layer: u32| #[trigger]
            holds_layer(lights, layer) ==> holds_layer(noticed_upto(lights, n), layer),
        forall|i: int|
            0 <= i < n && (#[trigger] noticed_upto(lights, n)[i]).light.target_view is Unassigned
                ==> all_layers_held(noticed_upto(lights, n)),
        layers_valid(lights) ==> layers_valid(noticed_upto(lights, n)),
    decreases n,
{
    if n > 0 {
        lemma_noticed_upto(lights, n - 1);
        let middle = noticed_upto(lights, n - 1);
        let after = noticed_upto(lights, n);
        lemma_noticed(middle, n - 1);
        assert forall|i: int| 0 <= i < lights.len() implies (#[trigger] after[i]) == (LightEntity {
            light: PointLight { target_view: after[i].light.target_view, ..lights[i].light },
            ..lights[i]
        }) by {
            assert(middle[i] == (LightEntity {
                light: PointLight { target_view: middle[i].light.target_view, ..lights[i].light },
                ..lights[i]
            }));
        }
        assert forall|i: int|
            0 <= i < lights.len() && (#[trigger] lights[i]).light.target_view is Bound implies after[i]
            == lights[i] by {
            assert(middle[i] == lights[i]);
        }
        assert forall|layer: u32| #[trigger] holds_layer(lights, layer) implies holds_layer(after, layer) by {
            assert(holds_layer(middle, layer));
        }
        assert forall|i: int|
            0 <= i < n && (#[trigger] after[i]).light.target_view is Unassigned implies all_layers_held(
            after,
        ) by {
            if i < n - 1 {
                assert(after[i] == middle[i]);
                assert(all_layers_held(middle));
                assert forall|layer: u32| layer < MAX_POINT_LIGHTS implies #[trigger] holds_layer(
                    after,
                    layer,
                ) by {
                    assert(holds_layer(middle, layer));
                }
            }
        }
    }
}

/// Where every layer is held there are as many bound lights as layers, for
/// a light holds one layer only: with a light that is not bound, there are
/// more lights than layers.
proof fn lemma_sixteen_holders(lights: Seq<LightEntity>, unbound: int)
    requires
        all_layers_held(lights),
        0 <= unbound < lights.len(),
        lights[unbound].light.target_view is Unassigned,
    ensures
        lights.len() > MAX_POINT_LIGHTS,
{
    let holder = |layer: int|
        choose|j: int|
            0 <= j < lights.len() && (#[trigger] lights[j]).light.target_view == (ShadowBinding::Bound {
                layer: layer as u32,
            });
    let layers = vstd::set_lib::set_int_range(0, 16);
    let holders = layers.map(holder);
    let others = vstd::set_lib::set_int_range(0, lights.len() as int).remove(unbound);
    vstd::set_lib::lemma_int_range(0, 16);
    vstd::set_lib::lemma_int_range(0, lights.len() as int);
    assert forall|layer: int| layers.contains(layer) implies 0 <= #[trigger] holder(layer) < lights.len()
        && lights[holder(layer)].light.target_view == (ShadowBinding::Bound { layer: layer as u32 }) by {
        assert(holds_layer(lights, layer as u32));
    }
    assert(vstd::relations::injective_on(holder, layers)) by {
        assert forall|a: int, b: int|
            layers.contains(a) && layers.contains(b) && #[trigger] holder(a) == #[trigger] holder(
                b,
            ) implies a == b by {
            assert(lights[holder(a)].light.target_view == (ShadowBinding::Bound { layer: a as u32 }));
            assert(lights[holder(b)].light.target_view == (ShadowBinding::Bound { layer: b as u32 }));
        }
    }
    vstd::set_lib::lemma_map_size(layers, holders, holder);
    assert(holders.subset_of(others)) by {
        assert forall|j: int| holders.contains(j) implies others.contains(j) by {
            let layer = choose|layer: int| layers.contains(layer) && j == holder(layer);
            assert(0 <= holder(layer) < lights.len());
        }
    }
    vstd::set_lib::lemma_len_subset(holders, others);
}

/// Every light gets its layer: where the scene holds no more lights than
/// the shadow texture has layers, every light is bound once the pass has
/// noticed the lights. Where the layers were valid before, they are so
/// after: no two lights are bound to one layer, and each layer exists.
pub proof fn lemma_every_light_gets_a_layer(before: Seq<LightEntity>, after: Seq<LightEntity>)
    requires
        assigned(before, after),
        before.len() <= MAX_POINT_LIGHTS,
    ensures
        forall|i: int| 0 <= i < after.len() ==> (#[trigger] after[i]).light.target_view is Bound,
        layers_valid(before) ==> layers_valid(after),
{
    lemma_bindings_never_reverse(before, after);
    assert forall|i: int| 0 <= i < after.len() implies (#[trigger] after[i]).light.target_view is Bound by {
        if after[i].light.target_view is Unassigned {
            lemma_sixteen_holders(after, i);
        }
    }
}

impl ShadowPass {
    pub fn new() -> ShadowPass {
        ShadowPass
    }

    /// Whether one of the lights is bound to `layer`.
    pub fn layer_is_held(&self, lights: &Vec<LightEntity>, layer: u32) -> (held: bool)
        ensures
            held == holds_layer(lights@, layer),
    {
        let mut j: usize = 0;
        while j < lights.len()
            invariant
                j <= lights@.len(),
                forall|k: int|
                    0 <= k < j ==> (#[trigger] lights@[k]).light.target_view != (ShadowBinding::Bound {
                        layer,
                    }),
            decreases lights.len() - j,
        {
            match lights[j].light.target_view {
                ShadowBinding::Bound { layer: other } => {
                    if other == layer {
                        assert(lights@[j as int].light.target_view == (ShadowBinding::Bound { layer }));
                        return true;
                    }
                },
                ShadowBinding::Unassigned => {},
            }
            j = j + 1;
        }
        false
    }

    /// The lowest layer of the shadow texture that no light holds, if there
    /// is one.
    pub fn lowest_free_layer(&self, lights: &Vec<LightEntity>) -> (free: Option<u32>)
        ensures
            free == free_layer(lights@),
    {
        let mut layer: u32 = 0;
        while layer < MAX_POINT_LIGHTS
            invariant
                layer <= MAX_POINT_LIGHTS,
                free_layer_from(lights@, 0) == free_layer_from(lights@, layer as int),
            decreases MAX_POINT_LIGHTS - layer,
        {
            if !self.layer_is_held(lights, layer) {
                return Some(layer);
            }
            layer = layer + 1;
        }
        None
    }

    /// Notices every light, in scene order: a light that has no layer of the
    /// shadow texture takes the lowest layer that no light holds. Nothing
    /// else about the lights changes.
    pub fn update_lights_with_texture_view(&self, lights: &mut Vec<LightEntity>)
        ensures
            assigned(old(lights)@, final(lights)@),
    {
        let mut i: usize = 0;
        while i < lights.len()
            invariant
                i <= lights@.len(),
                lights@.len() == old(lights)@.len(),
                lights@ == noticed_upto(old(lights)@, i as int),
            decreases lights.len() - i,
        {
            let entity: LightEntity = lights[i];
            match entity.light.target_view {
                ShadowBinding::Bound { layer } => {},
                ShadowBinding::Unassigned => {
                    match self.lowest_free_layer(lights) {
                        Some(layer) => {
                            let mut bound = entity;
                            bound.light.target_view = ShadowBinding::Bound { layer };
                            lights.set(i, bound);
                        },
                        None => {},
                    }
                },
            }
            i = i + 1;
        }
    }

    /// The private uniform of the pass for one light.
    pub fn update_uniforms(&self, light: &PointLightRaw) -> (uniform: LightSpaceMatrix)
        ensures
            uniform.light_space_matrix == light.light_space_matrix,
    {
        light.light_space()
    }
}

impl Pass for ShadowPass {
    open spec fn kind(&self) -> PassKind {
        PassKind::Shadow
    }

    open spec fn updates(&self, assets: AssetsView, scene: Scene, update: PassUpdate) -> bool {
        update is Nothing
    }

    /// The entity groups that carry no light, without textures: only depth
    /// counts.
    open spec fn draws(&self, assets: AssetsView, scene: Scene, draws: Seq<Draw>) -> bool {
        is_model_draws(assets, scene.chunks@, EntityFilter::WithoutLight, false, draws)
    }

    fn update_uniform_data(&self, assets: &AssetManager, scene: &Scene) -> (res: Result<
        PassUpdate,
        InstanceOverflow,
    >)
        ensures
            res is Ok,
    {
        Ok(PassUpdate::Nothing)
    }

    fn render(&self, assets: &AssetManager, scene: &Scene) -> (res: Result<Vec<Draw>, InstanceOverflow>) {
        model_draws(assets, &scene.chunks, EntityFilter::WithoutLight, false)
    }
}

} // verus!
