//! Instance batching: where the matrices of each entity group go in the
//! instance buffer of its model, and which range each draw reads.
//!
//! Offsets are counted in instances, never in bytes. They are recomputed from
//! the scene for every frame and for every pass, always by the same rule, so
//! that a pass can only read what the upload has written.

use vstd::prelude::*;
use std::collections::HashMap;
use crate::assets::{AssetManager, AssetsView, ModelHandle};
use crate::components::LightTag;
use crate::model::INSTANCE_SIZE;
use crate::words::{le_bytes, words_to_bytes, Matrix4};

verus! {

/// What the GPU reads for one instance: its model matrix.
#[derive(Clone, Copy, Debug, PartialEq, Eq, Structural)]
pub struct InstanceData {
    pub model_matrix: Matrix4,
}

impl InstanceData {
    pub fn new(model_matrix: Matrix4) -> (data: InstanceData)
        ensures
            data.model_matrix == model_matrix,
    {
        InstanceData { model_matrix }
    }
}

/// One group of entities as a scene query reports it: entities that share a
/// model, in query order. Several groups may share one model.
#[derive(Debug)]
pub struct Chunk {
    pub model: ModelHandle,
    /// One entry for each entity of the group.
    pub instances: Vec<InstanceData>,
    /// Set where the entities of the group carry a point light.
    pub light: Option<LightTag>,
}

/// Which groups a pass looks at.
#[derive(Clone, Copy, Debug, PartialEq, Eq, Structural)]
pub enum EntityFilter {
    /// Every group.
    All,
    /// Groups whose entities carry a point light.
    WithLight,
    /// Groups whose entities carry none.
    WithoutLight,
}

/// A run of consecutive instances in the instance buffer of a model.
#[derive(Clone, Copy, Debug, PartialEq, Eq, Structural)]
pub struct InstanceRange {
    pub first: u32,
    pub count: u32,
}

/// One instanced draw of a model.
#[derive(Clone, Copy, Debug, PartialEq, Eq, Structural)]
pub struct DrawCall {
    pub model: ModelHandle,
    pub instances: InstanceRange,
}

/// One copy from the staging buffer into the instance buffer of a model.
#[derive(Clone, Copy, Debug, PartialEq, Eq, Structural)]
pub struct InstanceCopy {
    pub model: ModelHandle,
    /// Index of the first instance to copy in the staging buffer.
    pub source: usize,
    /// Where the instances go in the instance buffer of the model.
    pub target: InstanceRange,
}

/// A group did not fit into the instance buffer of its model.
#[derive(Clone, Copy, Debug, PartialEq, Eq, Structural)]
pub struct InstanceOverflow {
    /// Index of the group in the scene query.
    pub chunk: usize,
    pub model: ModelHandle,
    /// Instances that the buffer of the model holds.
    pub capacity: u32,
    /// Instances that earlier groups of the frame have taken.
    pub used: u32,
    /// Instances that the group asked for.
    pub requested: usize,
}

impl InstanceCopy {
    /// Where the copy starts reading in the staging buffer, in bytes; `None`
    /// where that offset does not fit into 64 bits.
    pub fn source_offset(&self) -> (offset: Option<u64>)
        ensures
            match offset {
                Some(bytes) => bytes == self.source * INSTANCE_SIZE,
                None => self.source * INSTANCE_SIZE > u64::MAX,
            },
    {
        (self.source as u64).checked_mul(INSTANCE_SIZE)
    }

    /// Where the copy starts writing in the instance buffer, in bytes.
    pub fn target_offset(&self) -> (offset: u64)
        ensures
            offset == self.target.first * INSTANCE_SIZE,
    {
        self.target.first as u64 * INSTANCE_SIZE
    }

    /// The number of bytes that the copy moves.
    pub fn size(&self) -> (bytes: u64)
        ensures
            bytes == self.target.count * INSTANCE_SIZE,
    {
        self.target.count as u64 * INSTANCE_SIZE
    }
}

/// The words of a staging buffer: sixteen for each instance, in order.
pub open spec fn instance_words(staging: Seq<InstanceData>) -> Seq<u32> {
    Seq::new(16 * staging.len(), |i: int| staging[i / 16].model_matrix.words()[i % 16])
}

/// The bytes of a staging buffer as the GPU reads them: 64 for each
/// instance, the words of its matrix in little-endian order.
pub fn staging_bytes(staging: &Vec<InstanceData>) -> (bytes: Vec<u8>)
    ensures
        bytes@ == le_bytes(instance_words(staging@)),
        bytes@.len() == INSTANCE_SIZE * staging@.len(),
{
    let mut words: Vec<u32> = Vec::new();
    let mut k: usize = 0;
    while k < staging.len()
        invariant
            k <= staging@.len(),
            words@.len() == 16 * k,
            forall|i: int|
                0 <= i < 16 * k ==> #[trigger] words@[i] == staging@[i / 16].model_matrix.words()[i % 16],
        decreases staging.len() - k,
    {
        staging[k].model_matrix.push_words(&mut words);
        k = k + 1;
    }
    assert(words@ =~= instance_words(staging@));
    words_to_bytes(&words)
}

/// Whether `filter` lets a group through.
pub open spec fn passes(filter: EntityFilter, chunk: Chunk) -> bool {
    match filter {
        EntityFilter::All => true,
        EntityFilter::WithLight => chunk.light is Some,
        EntityFilter::WithoutLight => chunk.light is None,
    }
}

/// Whether a group takes part in the frame: its model is loaded and it has at
/// least one entity.
pub open spec fn drawable(assets: AssetsView, chunk: Chunk) -> bool {
    assets.is_loaded(chunk.model) && chunk.instances@.len() > 0
}

/// The number of entities that the first `n` groups attach to `model`.
pub open spec fn count_in(chunks: Seq<Chunk>, model: ModelHandle, n: int) -> nat
    decreases n,
{
    if n <= 0 {
        0
    } else {
        count_in(chunks, model, n - 1) + if chunks[n - 1].model == model {
            chunks[n - 1].instances@.len()
        } else {
            0
        }
    }
}

/// The range that group `i` has in the instance buffer of its model: it
/// starts where the earlier groups of the same model end.
pub open spec fn range_of(chunks: Seq<Chunk>, i: int) -> InstanceRange {
    InstanceRange {
        first: count_in(chunks, chunks[i].model, i) as u32,
        count: chunks[i].instances@.len() as u32,
    }
}

/// Whether group `i` is the one that no longer fits into the instance buffer
/// of its model.
pub open spec fn overflows_at(assets: AssetsView, chunks: Seq<Chunk>, i: int) -> bool {
    &&& drawable(assets, chunks[i])
    &&& count_in(chunks, chunks[i].model, i + 1) > assets.models[chunks[i].model].instance_capacity
}

/// Whether every group among the first `n` fits.
pub open spec fn fits(assets: AssetsView, chunks: Seq<Chunk>, n: int) -> bool {
    forall|i: int| 0 <= i < n ==> !#[trigger] overflows_at(assets, chunks, i)
}

/// The indices of the groups among the first `n` that take part in the frame
/// and pass `filter`, in ascending order.
pub open spec fn selected(assets: AssetsView, chunks: Seq<Chunk>, filter: EntityFilter, n: int) -> Seq<
    int,
>
    decreases n,
{
    if n <= 0 {
        Seq::empty()
    } else if drawable(assets, chunks[n - 1]) && passes(filter, chunks[n - 1]) {
        selected(assets, chunks, filter, n - 1).push(n - 1)
    } else {
        selected(assets, chunks, filter, n - 1)
    }
}

/// The matrices of the groups among the first `n` that take part in the
/// frame, group after group.
pub open spec fn staged(assets: AssetsView, chunks: Seq<Chunk>, n: int) -> Seq<InstanceData>
    decreases n,
{
    if n <= 0 {
        Seq::empty()
    } else if drawable(assets, chunks[n - 1]) {
        staged(assets, chunks, n - 1) + chunks[n - 1].instances@
    } else {
        staged(assets, chunks, n - 1)
    }
}

/// The draw of group `i`.
pub open spec fn draw_of(chunks: Seq<Chunk>, i: int) -> DrawCall {
    DrawCall { model: chunks[i].model, instances: range_of(chunks, i) }
}

/// The copy that uploads group `i`.
pub open spec fn copy_of(assets: AssetsView, chunks: Seq<Chunk>, i: int) -> InstanceCopy {
    InstanceCopy {
        model: chunks[i].model,
        source: staged(assets, chunks, i).len() as usize,
        target: range_of(chunks, i),
    }
}

/// The first group that does not fit, reported the way the planner reports it.
pub open spec fn overflow_of(assets: AssetsView, chunks: Seq<Chunk>, i: int) -> InstanceOverflow {
    InstanceOverflow {
        chunk: i as usize,
        model: chunks[i].model,
        capacity: assets.models[chunks[i].model].instance_capacity,
        used: count_in(chunks, chunks[i].model, i) as u32,
        requested: chunks[i].instances@.len() as usize,
    }
}

/// The instance count per model after the upload: one entry for each loaded
/// model with at least one entity in the frame.
pub open spec fn offset_map(assets: AssetsView, chunks: Seq<Chunk>) -> Map<ModelHandle, nat> {
    Map::new(
        |h: ModelHandle| assets.is_loaded(h) && count_in(chunks, h, chunks.len() as int) > 0,
        |h: ModelHandle| count_in(chunks, h, chunks.len() as int),
    )
}

/// How many instances each model got in a frame.
pub struct OffsetMap {
    counts: HashMap<usize, u32>,
}

impl View for OffsetMap {
    type V = Map<ModelHandle, nat>;

    closed spec fn view(&self) -> Map<ModelHandle, nat> {
        Map::new(
            |h: ModelHandle| self.counts@.contains_key(h.id),
            |h: ModelHandle| self.counts@[h.id] as nat,
        )
    }
}

impl OffsetMap {
    /// The number of instances of `model`, or `None` where the frame has
    /// none.
    pub fn get(&self, model: &ModelHandle) -> (count: Option<u32>)
        ensures
            count is Some <==> self@.contains_key(*model),
            count is Some ==> count->0 as nat == self@[*model],
    {
        broadcast use vstd::std_specs::hash::group_hash_axioms;

        match self.counts.get(&model.id) {
            Some(count) => Some(*count),
            None => None,
        }
    }

    /// The number of models with an entry.
    pub fn len(&self) -> (len: usize)
        ensures
            len == self@.dom().len(),
            self@.dom().finite(),
    {
        broadcast use vstd::std_specs::hash::group_hash_axioms;

        proof {
            self.lemma_same_size();
        }
        self.counts.len()
    }

    proof fn lemma_same_size(&self)
        requires
            self.counts@.dom().finite(),
        ensures
            self@.dom().finite(),
            self@.dom().len() == self.counts@.dom().len(),
    {
        let ids = self.counts@.dom();
        let handles = self@.dom();
        let wrap = |id: usize| ModelHandle { id };
        assert(handles =~= ids.map(wrap)) by {
            assert forall|h: ModelHandle| handles.contains(h) implies ids.map(wrap).contains(h) by {
                assert(ids.contains(h.id) && wrap(h.id) == h);
            }
        }
        assert(vstd::relations::injective(wrap));
        ids.lemma_map_finite(wrap);
        vstd::set_lib::lemma_map_size(ids, handles, wrap);
    }
}

/// What the upload of a frame consists of.
pub struct InstanceUpload {
    /// The matrices of all groups that take part, group after group.
    pub staging: Vec<InstanceData>,
    /// One copy for each group that takes part, in scene order.
    pub copies: Vec<InstanceCopy>,
    /// The instance count of each model after the last copy.
    pub offsets: OffsetMap,
}

/// That `e` reports the first group that does not fit.
pub open spec fn first_overflow(assets: AssetsView, chunks: Seq<Chunk>, e: InstanceOverflow) -> bool {
    exists|i: int|
        {
            &&& 0 <= i < chunks.len()
            &&& fits(assets, chunks, i)
            &&& #[trigger] overflows_at(assets, chunks, i)
            &&& e == overflow_of(assets, chunks, i)
        }
}

/// That `draws` holds the draws of the groups that `filter` selects, in scene
/// order.
pub open spec fn is_draw_list(
    assets: AssetsView,
    chunks: Seq<Chunk>,
    filter: EntityFilter,
    draws: Seq<DrawCall>,
) -> bool {
    let picked = selected(assets, chunks, filter, chunks.len() as int);
    &&& draws.len() == picked.len()
    &&& forall|k: int| 0 <= k < draws.len() ==> #[trigger] draws[k] == draw_of(chunks, picked[k])
}

/// That `copies` holds the copies of all groups that take part, in scene
/// order.
pub open spec fn is_copy_list(assets: AssetsView, chunks: Seq<Chunk>, copies: Seq<InstanceCopy>) -> bool {
    let picked = selected(assets, chunks, EntityFilter::All, chunks.len() as int);
    &&& copies.len() == picked.len()
    &&& forall|k: int|
        0 <= k < copies.len() ==> #[trigger] copies[k] == copy_of(assets, chunks, picked[k])
}

/// Where every group fits, the range of a group that takes part is exact: it
/// starts at the count of the groups before it, has one slot for each entity
/// and ends inside the instance buffer.
pub proof fn lemma_range_exact(assets: AssetsView, chunks: Seq<Chunk>, i: int)
    requires
        0 <= i < chunks.len(),
        !overflows_at(assets, chunks, i),
        drawable(assets, chunks[i]),
    ensures
        range_of(chunks, i).first == count_in(chunks, chunks[i].model, i),
        range_of(chunks, i).count == chunks[i].instances@.len(),
        range_of(chunks, i).first + range_of(chunks, i).count == count_in(chunks, chunks[i].model, i + 1),
        range_of(chunks, i).first + range_of(chunks, i).count
            <= assets.models[chunks[i].model].instance_capacity,
{
}

fn passes_filter(filter: EntityFilter, chunk: &Chunk) -> (yes: bool)
    ensures
        yes == passes(filter, *chunk),
{
    match filter {
        EntityFilter::All => true,
        EntityFilter::WithLight => chunk.light.is_some(),
        EntityFilter::WithoutLight => chunk.light.is_none(),
    }
}

/// Gives every group its range in the instance buffer of its model.
///
/// A group whose model is not loaded, or that has no entity, gets no range.
/// The first group that would run past the capacity of its model ends the
/// pass with an error; nothing is cut short.
pub fn instance_ranges(assets: &AssetManager, chunks: &Vec<Chunk>) -> (res: Result<
    (Vec<Option<InstanceRange>>, OffsetMap),
    InstanceOverflow,
>)
    requires
        assets.wf(),
    ensures
        match res {
            Ok((ranges, offsets)) => {
                &&& fits(assets@, chunks@, chunks@.len() as int)
                &&& ranges@.len() == chunks@.len()
                &&& forall|i: int|
                    0 <= i < chunks@.len() ==> #[trigger] ranges@[i] == (if drawable(assets@, chunks@[i]) {
                        Some(range_of(chunks@, i))
                    } else {
                        None
                    })
                &&& offsets@ == offset_map(assets@, chunks@)
            },
            Err(e) => first_overflow(assets@, chunks@, e),
        },
{
    broadcast use vstd::std_specs::hash::group_hash_axioms;

    let mut ranges: Vec<Option<InstanceRange>> = Vec::new();
    let mut counts: HashMap<usize, u32> = HashMap::new();
    let mut i: usize = 0;
    while i < chunks.len()
        invariant
            assets.wf(),
            i <= chunks@.len(),
            fits(assets@, chunks@, i as int),
            ranges@.len() == i,
            forall|j: int|
                0 <= j < i ==> #[trigger] ranges@[j] == (if drawable(assets@, chunks@[j]) {
                    Some(range_of(chunks@, j))
                } else {
                    None
                }),
            forall|h: ModelHandle| #[trigger]
                counts@.contains_key(h.id) <==> assets@.is_loaded(h) && count_in(chunks@, h, i as int) > 0,
            forall|h: ModelHandle| #[trigger]
                counts@.contains_key(h.id) ==> counts@[h.id] == count_in(chunks@, h, i as int),
            forall|h: ModelHandle|
                assets@.is_loaded(h) ==> #[trigger] count_in(chunks@, h, i as int)
                    <= assets@.models[h].instance_capacity,
        decreases chunks.len() - i,
    {
        let chunk = &chunks[i];
        let requested: usize = chunk.instances.len();
        let ghost here = chunk.model;
        let mut range: Option<InstanceRange> = None;
        match assets.get_model(&chunk.model) {
            None => {},
            Some(model) => {
                if requested > 0 {
                    let used: u32 = match counts.get(&chunk.model.id) {
                        Some(count) => *count,
                        None => 0,
                    };
                    let capacity: u32 = model.instance_capacity;
                    assert(used == count_in(chunks@, here, i as int));
                    if requested > (capacity - used) as usize {
                        proof {
                            assert(overflows_at(assets@, chunks@, i as int));
                        }
                        return Err(
                            InstanceOverflow { chunk: i, model: chunk.model, capacity, used, requested },
                        );
                    }
                    let count: u32 = requested as u32;
                    range = Some(InstanceRange { first: used, count });
                    counts.insert(chunk.model.id, used + count);
                }
            },
        }
        ranges.push(range);
        proof {
            let next = i as int + 1;
            assert forall|h: ModelHandle|
                (#[trigger] counts@.contains_key(h.id) <==> assets@.is_loaded(h) && count_in(
                    chunks@,
                    h,
                    next,
                ) > 0) && (counts@.contains_key(h.id) ==> counts@[h.id] == count_in(chunks@, h, next)) by {
                if h != here {
                    assert(h.id != here.id);
                }
            }
            assert forall|h: ModelHandle| assets@.is_loaded(h) implies #[trigger] count_in(
                chunks@,
                h,
                next,
            ) <= assets@.models[h].instance_capacity by {
                assert(count_in(chunks@, h, i as int) <= assets@.models[h].instance_capacity);
            }
            assert(!overflows_at(assets@, chunks@, i as int));
        }
        i = i + 1;
    }
    let offsets = OffsetMap { counts };
    proof {
        assert(offsets@ =~= offset_map(assets@, chunks@));
    }
    Ok((ranges, offsets))
}

/// Plans the upload of a frame: the staging buffer, one copy for each group
/// that takes part, and the instance count of each model.
pub fn upload_instances(assets: &AssetManager, chunks: &Vec<Chunk>) -> (res: Result<
    InstanceUpload,
    InstanceOverflow,
>)
    requires
        assets.wf(),
    ensures
        match res {
            Ok(upload) => {
                &&& fits(assets@, chunks@, chunks@.len() as int)
                &&& upload.staging@ == staged(assets@, chunks@, chunks@.len() as int)
                &&& is_copy_list(assets@, chunks@, upload.copies@)
                &&& upload.offsets@ == offset_map(assets@, chunks@)
            },
            Err(e) => first_overflow(assets@, chunks@, e),
        },
{
    let (ranges, offsets) = match instance_ranges(assets, chunks) {
        Ok(pair) => pair,
        Err(e) => {
            return Err(e);
        },
    };
    let mut staging: Vec<InstanceData> = Vec::new();
    let mut copies: Vec<InstanceCopy> = Vec::new();
    let mut i: usize = 0;
    while i < chunks.len()
        invariant
            i <= chunks@.len(),
            ranges@.len() == chunks@.len(),
            forall|j: int|
                0 <= j < chunks@.len() ==> #[trigger] ranges@[j] == (if drawable(assets@, chunks@[j]) {
                    Some(range_of(chunks@, j))
                } else {
                    None
                }),
            staging@ == staged(assets@, chunks@, i as int),
            copies@.len() == selected(assets@, chunks@, EntityFilter::All, i as int).len(),
            forall|k: int|
                0 <= k < copies@.len() ==> #[trigger] copies@[k] == copy_of(
                    assets@,
                    chunks@,
                    selected(assets@, chunks@, EntityFilter::All, i as int)[k],
                ),
        decreases chunks.len() - i,
    {
        let chunk = &chunks[i];
        match ranges[i] {
            None => {},
            Some(target) => {
                let source: usize = staging.len();
                copies.push(InstanceCopy { model: chunk.model, source, target });
                let ghost base = staging@;
                let mut k: usize = 0;
                while k < chunk.instances.len()
                    invariant
                        k <= chunk.instances@.len(),
                        staging@ == base + chunk.instances@.take(k as int),
                    decreases chunk.instances.len() - k,
                {
                    staging.push(chunk.instances[k]);
                    proof {
                        assert(chunk.instances@.take(k as int + 1) =~= chunk.instances@.take(k as int).push(
                            chunk.instances@[k as int],
                        ));
                    }
                    k = k + 1;
                }
                proof {
                    assert(chunk.instances@.take(k as int) =~= chunk.instances@);
                }
            },
        }
        i = i + 1;
    }
    Ok(InstanceUpload { staging, copies, offsets })
}

/// The draws of one pass: one for each group that takes part in the frame
/// and passes `filter`, in scene order. Each reads exactly the range that the
/// upload of the same frame writes for its group.
pub fn draw_calls(assets: &AssetManager, chunks: &Vec<Chunk>, filter: EntityFilter) -> (res: Result<
    Vec<DrawCall>,
    InstanceOverflow,
>)
    requires
        assets.wf(),
    ensures
        match res {
            Ok(draws) => {
                &&& fits(assets@, chunks@, chunks@.len() as int)
                &&& is_draw_list(assets@, chunks@, filter, draws@)
            },
            Err(e) => first_overflow(assets@, chunks@, e),
        },
{
    let (ranges, _) = match instance_ranges(assets, chunks) {
        Ok(pair) => pair,
        Err(e) => {
            return Err(e);
        },
    };
    let mut draws: Vec<DrawCall> = Vec::new();
    let mut i: usize = 0;
    while i < chunks.len()
        invariant
            i <= chunks@.len(),
            ranges@.len() == chunks@.len(),
            forall|j: int|
                0 <= j < chunks@.len() ==> #[trigger] ranges@[j] == (if drawable(assets@, chunks@[j]) {
                    Some(range_of(chunks@, j))
                } else {
                    None
                }),
            draws@.len() == selected(assets@, chunks@, filter, i as int).len(),
            forall|k: int|
                0 <= k < draws@.len() ==> #[trigger] draws@[k] == draw_of(
                    chunks@,
                    selected(assets@, chunks@, filter, i as int)[k],
                ),
        decreases chunks.len() - i,
    {
        let chunk = &chunks[i];
        match ranges[i] {
            None => {},
            Some(instances) => {
                if passes_filter(filter, chunk) {
                    draws.push(DrawCall { model: chunk.model, instances });
                }
            },
        }
        i = i + 1;
    }
    Ok(draws)
}

/// The number of instances of `model` that `draws` read.
pub open spec fn instances_drawn(draws: Seq<DrawCall>, model: ModelHandle) -> nat
    decreases draws.len(),
{
    if draws.len() == 0 {
        0
    } else {
        instances_drawn(draws.drop_last(), model) + if draws.last().model == model {
            draws.last().instances.count as nat
        } else {
            0
        }
    }
}

/// The number of instances of `model` that `copies` write.
pub open spec fn instances_written(copies: Seq<InstanceCopy>, model: ModelHandle) -> nat
    decreases copies.len(),
{
    if copies.len() == 0 {
        0
    } else {
        instances_written(copies.drop_last(), model) + if copies.last().model == model {
            copies.last().target.count as nat
        } else {
            0
        }
    }
}

/// That the pass draws `model` as a whole: `filter` lets through every
/// group of `model` that takes part in the frame.
pub open spec fn keeps_whole(
    assets: AssetsView,
    chunks: Seq<Chunk>,
    filter: EntityFilter,
    model: ModelHandle,
) -> bool {
    forall|i: int|
        0 <= i < chunks.len() && (#[trigger] chunks[i]).model == model && drawable(assets, chunks[i])
            ==> passes(filter, chunks[i])
}

/// What `selected` selects: exactly the groups that take part and pass the
/// filter, each once, in ascending order.
pub proof fn lemma_selected(assets: AssetsView, chunks: Seq<Chunk>, filter: EntityFilter, n: int)
    requires
        0 <= n <= chunks.len(),
    ensures
        selected(assets, chunks, filter, n).len() <= n,
        forall|k: int|
            0 <= k < selected(assets, chunks, filter, n).len() ==> {
                let i = #[trigger] selected(assets, chunks, filter, n)[k];
                0 <= i < n && drawable(assets, chunks[i]) && passes(filter, chunks[i])
            },
        forall|k: int, l: int|
            0 <= k < l < selected(assets, chunks, filter, n).len() ==> selected(assets, chunks, filter, n)[k]
                < selected(assets, chunks, filter, n)[l],
        forall|i: int|
            0 <= i < n && drawable(assets, chunks[i]) && passes(filter, chunks[i]) ==> selected(
                assets,
                chunks,
                filter,
                n,
            ).contains(i),
    decreases n,
{
    if n > 0 {
        lemma_selected(assets, chunks, filter, n - 1);
        let before = selected(assets, chunks, filter, n - 1);
        let now = selected(assets, chunks, filter, n);
        assert forall|i: int|
            0 <= i < n && drawable(assets, chunks[i]) && passes(filter, chunks[i]) implies now.contains(
            i,
        ) by {
            if i < n - 1 {
                assert(before.contains(i));
                let k = choose|k: int| 0 <= k < before.len() && before[k] == i;
                assert(now[k] == i);
            } else {
                assert(now[now.len() - 1] == i);
            }
        }
    }
}

/// That one of `copies` writes exactly the range that `draw` reads, in the
/// same model.
pub open spec fn written_by(copies: Seq<InstanceCopy>, draw: DrawCall) -> bool {
    exists|c: int|
        0 <= c < copies.len() && (#[trigger] copies[c]).model == draw.model && copies[c].target
            == draw.instances
}

/// No pass draws what was not uploaded: every draw of a pass reads the very
/// range that one copy of the same frame writes, in the same model.
pub proof fn lemma_draws_read_copies(
    assets: AssetsView,
    chunks: Seq<Chunk>,
    filter: EntityFilter,
    draws: Seq<DrawCall>,
    copies: Seq<InstanceCopy>,
)
    requires
        is_draw_list(assets, chunks, filter, draws),
        is_copy_list(assets, chunks, copies),
    ensures
        forall|k: int| 0 <= k < draws.len() ==> written_by(copies, #[trigger] draws[k]),
{
    let n = chunks.len() as int;
    let picked = selected(assets, chunks, filter, n);
    let all = selected(assets, chunks, EntityFilter::All, n);
    lemma_selected(assets, chunks, filter, n);
    lemma_selected(assets, chunks, EntityFilter::All, n);
    assert forall|k: int| 0 <= k < draws.len() implies written_by(copies, #[trigger] draws[k]) by {
        let i = picked[k];
        assert(all.contains(i));
        let c = choose|c: int| 0 <= c < all.len() && all[c] == i;
        assert(copies[c] == copy_of(assets, chunks, i));
        assert(draws[k] == draw_of(chunks, i));
    }
}

/// The draws of the first `n` groups under `filter`.
spec fn draws_upto(assets: AssetsView, chunks: Seq<Chunk>, filter: EntityFilter, n: int) -> Seq<DrawCall> {
    let picked = selected(assets, chunks, filter, n);
    Seq::new(picked.len(), |k: int| draw_of(chunks, picked[k]))
}

/// The copies of the first `n` groups.
spec fn copies_upto(assets: AssetsView, chunks: Seq<Chunk>, n: int) -> Seq<InstanceCopy> {
    let picked = selected(assets, chunks, EntityFilter::All, n);
    Seq::new(picked.len(), |k: int| copy_of(assets, chunks, picked[k]))
}

proof fn lemma_drawn_upto(
    assets: AssetsView,
    chunks: Seq<Chunk>,
    filter: EntityFilter,
    model: ModelHandle,
    n: int,
)
    requires
        0 <= n <= chunks.len(),
        fits(assets, chunks, n),
        keeps_whole(assets, chunks, filter, model),
    ensures
        instances_drawn(draws_upto(assets, chunks, filter, n), model) == (if assets.is_loaded(model) {
            count_in(chunks, model, n)
        } else {
            0
        }),
    decreases n,
{
    if n > 0 {
        lemma_drawn_upto(assets, chunks, filter, model, n - 1);
        let before = draws_upto(assets, chunks, filter, n - 1);
        let now = draws_upto(assets, chunks, filter, n);
        let chunk = chunks[n - 1];
        assert(!overflows_at(assets, chunks, n - 1));
        if drawable(assets, chunk) && passes(filter, chunk) {
            lemma_range_exact(assets, chunks, n - 1);
            assert(now.drop_last() =~= before);
            assert(now.last() == draw_of(chunks, n - 1));
        } else {
            assert(now =~= before);
        }
    }
}

proof fn lemma_written_upto(assets: AssetsView, chunks: Seq<Chunk>, model: ModelHandle, n: int)
    requires
        0 <= n <= chunks.len(),
        fits(assets, chunks, n),
    ensures
        instances_written(copies_upto(assets, chunks, n), model) == (if assets.is_loaded(model) {
            count_in(chunks, model, n)
        } else {
            0
        }),
    decreases n,
{
    if n > 0 {
        lemma_written_upto(assets, chunks, model, n - 1);
        let before = copies_upto(assets, chunks, n - 1);
        let now = copies_upto(assets, chunks, n);
        let chunk = chunks[n - 1];
        assert(!overflows_at(assets, chunks, n - 1));
        if drawable(assets, chunk) {
            lemma_range_exact(assets, chunks, n - 1);
            assert(now.drop_last() =~= before);
            assert(now.last() == copy_of(assets, chunks, n - 1));
        } else {
            assert(now =~= before);
        }
    }
}

/// Instance offset consistency: of a model that a pass draws as a whole,
/// the pass reads as many instances as the upload of the frame wrote. For a
/// loaded model that is the number of entities that carry the model, and
/// what the offset map reports; for a model that is not loaded it is none.
pub proof fn lemma_instance_offset_consistency(
    assets: AssetsView,
    chunks: Seq<Chunk>,
    filter: EntityFilter,
    model: ModelHandle,
    draws: Seq<DrawCall>,
    copies: Seq<InstanceCopy>,
)
    requires
        fits(assets, chunks, chunks.len() as int),
        keeps_whole(assets, chunks, filter, model),
        is_draw_list(assets, chunks, filter, draws),
        is_copy_list(assets, chunks, copies),
    ensures
        instances_drawn(draws, model) == instances_written(copies, model),
        assets.is_loaded(model) ==> instances_written(copies, model) == count_in(
            chunks,
            model,
            chunks.len() as int,
        ),
        offset_map(assets, chunks).contains_key(model) ==> offset_map(assets, chunks)[model]
            == instances_drawn(draws, model),
        !offset_map(assets, chunks).contains_key(model) ==> instances_drawn(draws, model) == 0,
{
    let n = chunks.len() as int;
    lemma_drawn_upto(assets, chunks, filter, model, n);
    lemma_written_upto(assets, chunks, model, n);
    assert(draws =~= draws_upto(assets, chunks, filter, n));
    assert(copies =~= copies_upto(assets, chunks, n));
}

} // verus!
