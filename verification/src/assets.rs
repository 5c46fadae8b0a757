//! The asset registry: handles, the deferred load queue and the loaded models.

use vstd::prelude::*;
use std::collections::{HashMap, VecDeque};
use crate::model::Model;

verus! {

/// Names a model in an [`AssetManager`]. Handles are handed out in order of
/// first request, starting at zero.
#[derive(Clone, Copy, Debug, PartialEq, Eq, Hash, Structural)]
pub struct ModelHandle {
    pub id: usize,
}

/// Why a queued model could not be loaded.
#[derive(Clone, Debug)]
pub struct LoadError {
    /// The path whose load failed.
    pub path: String,
    /// What the loader reported.
    pub reason: String,
}

/// What an [`AssetManager`] holds, as mathematics.
pub struct AssetsView {
    /// The path behind each handle, indexed by handle id.
    pub paths: Seq<String>,
    /// The handles waiting to be loaded, oldest first.
    pub pending: Seq<ModelHandle>,
    /// The loaded models by handle.
    pub models: Map<ModelHandle, Model>,
}

impl AssetsView {
    /// Whether `path` has been requested before.
    pub open spec fn knows(self, path: Seq<char>) -> bool {
        exists|i: int| 0 <= i < self.paths.len() && #[trigger] self.paths[i]@ == path
    }

    /// Whether the model behind `handle` can be drawn.
    pub open spec fn is_loaded(self, handle: ModelHandle) -> bool {
        self.models.dom().contains(handle)
    }

    /// How often `handle` stands in the load queue.
    pub open spec fn times_pending(self, handle: ModelHandle) -> nat {
        self.pending.filter(is_handle(handle)).len()
    }

    /// The invariant of the registry: no path has two handles; every handle
    /// is either pending or loaded, never both; nothing is queued twice.
    pub open spec fn wf(self) -> bool {
        &&& forall|i: int, j: int|
            0 <= i < j < self.paths.len() ==> #[trigger] self.paths[i]@ != #[trigger] self.paths[j]@
        &&& self.pending.no_duplicates()
        &&& forall|h: ModelHandle| #[trigger]
            self.pending.contains(h) ==> h.id < self.paths.len() && !self.is_loaded(h)
        &&& forall|h: ModelHandle| #[trigger] self.is_loaded(h) ==> h.id < self.paths.len()
        &&& forall|h: ModelHandle|
            h.id < self.paths.len() ==> #[trigger] self.is_loaded(h) || self.pending.contains(h)
    }

    /// What a request for `path` does: `after` is the registry that follows
    /// `self`, `handle` the handle returned.
    ///
    /// A known path keeps its handle and changes nothing. A new path gets the
    /// next free handle and joins the end of the load queue.
    pub open spec fn requested(self, path: Seq<char>, after: AssetsView, handle: ModelHandle) -> bool {
        &&& handle.id < after.paths.len()
        &&& after.paths[handle.id as int]@ == path
        &&& after.models == self.models
        &&& self.knows(path) ==> after == self
        &&& !self.knows(path) ==> {
            &&& handle.id == self.paths.len()
            &&& after.paths.len() == self.paths.len() + 1
            &&& after.paths.drop_last() == self.paths
            &&& after.pending == self.pending.push(handle)
        }
    }

    /// What handing in the model for the oldest pending handle does.
    pub open spec fn stored(self, model: Model) -> AssetsView
        recommends
            self.pending.len() > 0,
    {
        AssetsView {
            paths: self.paths,
            pending: self.pending.drop_first(),
            models: self.models.insert(self.pending[0], model),
        }
    }

    /// That the first `n` handles pending in `self` are loaded in `after`,
    /// each with a model that `loader` returns for its path, and that what
    /// was loaded before is untouched.
    pub open spec fn loaded_by<F: Fn(&String) -> Result<Model, String>>(
        self,
        loader: F,
        after: AssetsView,
        n: int,
    ) -> bool {
        &&& after.paths == self.paths
        &&& after.pending == self.pending.skip(n)
        &&& forall|h: ModelHandle| #[trigger]
            self.is_loaded(h) ==> after.is_loaded(h) && after.models[h] == self.models[h]
        &&& forall|k: int|
            0 <= k < n ==> {
                &&& after.is_loaded(#[trigger] self.pending[k])
                &&& call_ensures(
                    loader,
                    (&self.paths[self.pending[k].id as int],),
                    Ok::<Model, String>(after.models[self.pending[k]]),
                )
            }
        &&& forall|h: ModelHandle| #[trigger]
            after.is_loaded(h) ==> self.is_loaded(h) || self.pending.take(n).contains(h)
    }
}

impl AssetsView {
    /// That `after` is `self` with the whole load queue loaded by `loader`.
    pub open spec fn drained<F: Fn(&String) -> Result<Model, String>>(
        self,
        loader: F,
        after: AssetsView,
    ) -> bool {
        &&& after.pending.len() == 0
        &&& self.loaded_by(loader, after, self.pending.len() as int)
    }

    /// That `after` is `self` with the load queue loaded by `loader` up to
    /// the first failure, which is `e`.
    pub open spec fn drain_failed<F: Fn(&String) -> Result<Model, String>>(
        self,
        loader: F,
        after: AssetsView,
        e: LoadError,
    ) -> bool {
        exists|k: int|
            {
                &&& 0 <= k < self.pending.len()
                &&& self.loaded_by(loader, after, k)
                &&& e.path == self.paths[(#[trigger] self.pending[k]).id as int]
                &&& call_ensures(loader, (&e.path,), Err::<Model, String>(e.reason))
            }
    }
}

/// The test "is this `handle`?".
pub open spec fn is_handle(handle: ModelHandle) -> spec_fn(ModelHandle) -> bool {
    |h: ModelHandle| h == handle
}

/// Requesting one path twice in a row returns one handle, and the second
/// request changes nothing.
pub proof fn lemma_load_twice_same_handle(
    start: AssetsView,
    path: Seq<char>,
    once: AssetsView,
    first: ModelHandle,
    twice: AssetsView,
    second: ModelHandle,
)
    requires
        start.wf(),
        start.requested(path, once, first),
        once.requested(path, twice, second),
    ensures
        first == second,
        twice == once,
{
    lemma_requested_keeps_wf(start, path, once, first);
    assert(once.knows(path));
}

/// A handle that is not loaded stands in the load queue exactly once after
/// its path was requested, however often it was requested: draining uploads
/// it once.
pub proof fn lemma_one_upload_per_path(
    start: AssetsView,
    path: Seq<char>,
    once: AssetsView,
    first: ModelHandle,
    twice: AssetsView,
    second: ModelHandle,
)
    requires
        start.wf(),
        start.requested(path, once, first),
        once.requested(path, twice, second),
    ensures
        twice.wf(),
        twice.is_loaded(second) ==> twice.times_pending(second) == 0,
        !twice.is_loaded(second) ==> twice.times_pending(second) == 1,
{
    lemma_load_twice_same_handle(start, path, once, first, twice, second);
    lemma_requested_keeps_wf(start, path, once, first);
    lemma_times_pending(twice, second);
}

/// A request keeps the invariant.
pub proof fn lemma_requested_keeps_wf(
    before: AssetsView,
    path: Seq<char>,
    after: AssetsView,
    handle: ModelHandle,
)
    requires
        before.wf(),
        before.requested(path, after, handle),
    ensures
        after.wf(),
{
    if !before.knows(path) {
        assert forall|i: int, j: int| 0 <= i < j < after.paths.len() implies #[trigger] after.paths[i]@
            != #[trigger] after.paths[j]@ by {
            assert(after.paths[i] == after.paths.drop_last()[i]);
            if j < before.paths.len() {
                assert(after.paths[j] == after.paths.drop_last()[j]);
            }
        }
        assert forall|h: ModelHandle| #[trigger] after.is_loaded(h) implies h.id < after.paths.len() by {
            assert(before.is_loaded(h));
        }
        assert forall|h: ModelHandle| h.id < after.paths.len() implies #[trigger] after.is_loaded(h)
            || after.pending.contains(h) by {
            if h.id < before.paths.len() {
                assert(before.is_loaded(h) || before.pending.contains(h));
                if before.pending.contains(h) {
                    let k = choose|k: int| 0 <= k < before.pending.len() && before.pending[k] == h;
                    assert(after.pending[k] == h);
                }
            } else {
                assert(h == handle);
                assert(after.pending[before.pending.len() as int] == h);
            }
        }
        assert forall|h: ModelHandle| #[trigger] after.pending.contains(h) implies h.id
            < after.paths.len() && !after.is_loaded(h) by {
            let k = choose|k: int| 0 <= k < after.pending.len() && after.pending[k] == h;
            if k < before.pending.len() {
                assert(before.pending[k] == h);
                assert(before.pending.contains(h));
            } else {
                assert(h == handle);
                assert(!before.is_loaded(h));
            }
        }
        assert forall|k: int, l: int| 0 <= k < l < after.pending.len() implies after.pending[k]
            != after.pending[l] by {
            assert(before.pending.contains(after.pending[k]));
        }
    }
}

/// In a well-formed registry a handle stands in the queue once if it is
/// pending and not at all if it is not.
pub proof fn lemma_times_pending(view: AssetsView, handle: ModelHandle)
    requires
        view.wf(),
    ensures
        view.pending.contains(handle) ==> view.times_pending(handle) == 1,
        !view.pending.contains(handle) ==> view.times_pending(handle) == 0,
        handle.id < view.paths.len() && !view.is_loaded(handle) ==> view.times_pending(handle) == 1,
{
    lemma_occurrences(view.pending, handle);
}

/// In a sequence without duplicates a value occurs once or not at all.
proof fn lemma_occurrences(handles: Seq<ModelHandle>, handle: ModelHandle)
    requires
        handles.no_duplicates(),
    ensures
        handles.filter(is_handle(handle)).len() == (if handles.contains(handle) {
            1nat
        } else {
            0nat
        }),
    decreases handles.len(),
{
    let pred = is_handle(handle);
    if handles.len() == 0 {
        reveal(Seq::filter);
    } else {
        let front = handles.drop_last();
        let last = handles.last();
        assert(handles =~= front.push(last));
        front.lemma_filter_len_push(pred, last);
        lemma_occurrences(front, handle);
        if last == handle {
            if front.contains(handle) {
                let k = choose|k: int| 0 <= k < front.len() && front[k] == handle;
                assert(handles[k] == handles[handles.len() - 1]);
            }
            assert(handles[handles.len() - 1] == handle);
        } else if handles.contains(handle) {
            let k = choose|k: int| 0 <= k < handles.len() && handles[k] == handle;
            assert(front[k] == handle);
        } else if front.contains(handle) {
            let k = choose|k: int| 0 <= k < front.len() && front[k] == handle;
            assert(handles[k] == handle);
        }
    }
}

/// Owns every loaded model and the queue of models still to load.
///
/// A handle is in exactly one of two states: *pending* (requested, not yet
/// loaded) or *loaded*. Drawing code treats a pending handle as not ready.
pub struct AssetManager {
    /// The path behind each handle, indexed by handle id.
    paths: Vec<String>,
    /// The loaded models by handle id.
    asset_map: HashMap<usize, Model>,
    /// The handle ids that wait to be loaded, oldest first.
    load_queue: VecDeque<usize>,
}

impl View for AssetManager {
    type V = AssetsView;

    closed spec fn view(&self) -> AssetsView {
        AssetsView {
            paths: self.paths@,
            pending: self.load_queue@.map_values(|id: usize| ModelHandle { id }),
            models: Map::new(
                |h: ModelHandle| self.asset_map@.contains_key(h.id),
                |h: ModelHandle| self.asset_map@[h.id],
            ),
        }
    }
}

impl AssetManager {
    /// The invariant of the representation. It implies the invariant of the
    /// view, see [`AssetManager::lemma_wf`].
    pub closed spec fn wf(&self) -> bool {
        &&& forall|i: int, j: int|
            0 <= i < j < self.paths@.len() ==> #[trigger] self.paths@[i]@ != #[trigger] self.paths@[j]@
        &&& forall|k: int|
            0 <= k < self.load_queue@.len() ==> {
                &&& (#[trigger] self.load_queue@[k]) < self.paths@.len()
                &&& !self.asset_map@.contains_key(self.load_queue@[k])
            }
        &&& forall|k: int, l: int|
            0 <= k < l < self.load_queue@.len() ==> #[trigger] self.load_queue@[k]
                != #[trigger] self.load_queue@[l]
        &&& forall|id: usize| #[trigger] self.asset_map@.contains_key(id) ==> id < self.paths@.len()
        &&& forall|id: usize|
            id < self.paths@.len() ==> #[trigger] self.asset_map@.contains_key(id) || self.load_queue@.contains(
                id,
            )
    }

    /// A well-formed registry has a well-formed view.
    pub proof fn lemma_wf(&self)
        requires
            self.wf(),
        ensures
            self@.wf(),
    {
        let q = self.load_queue@;
        let p = self@.pending;
        assert(self.paths.len() == self.paths@.len());
        assert forall|h: ModelHandle| #[trigger] p.contains(h) implies h.id < self@.paths.len()
            && !self@.is_loaded(h) by {
            let k = choose|k: int| 0 <= k < p.len() && p[k] == h;
            assert(q[k] == h.id);
        }
        assert forall|h: ModelHandle| h.id < self@.paths.len() implies #[trigger] self@.is_loaded(h)
            || p.contains(h) by {
            if !self@.is_loaded(h) {
                assert(!self.asset_map@.contains_key(h.id));
                assert(q.contains(h.id));
                let k = choose|k: int| 0 <= k < q.len() && q[k] == h.id;
                assert(p[k] == h);
            }
        }
    }

    /// An empty registry.
    pub fn new() -> (manager: AssetManager)
        ensures
            manager.wf(),
            manager@.paths.len() == 0,
            manager@.pending.len() == 0,
            manager@.models == Map::<ModelHandle, Model>::empty(),
    {
        broadcast use vstd::std_specs::hash::group_hash_axioms;

        let manager = AssetManager {
            paths: Vec::new(),
            asset_map: HashMap::new(),
            load_queue: VecDeque::new(),
        };
        assert(manager@.models =~= Map::<ModelHandle, Model>::empty());
        manager
    }

    /// Requests the model at `path` and returns its handle.
    ///
    /// A path that was requested before keeps its handle and nothing else
    /// happens. A new path gets the next free handle and joins the end of the
    /// load queue. Either way the handle can be attached to scene entities at
    /// once.
    pub fn load_model(&mut self, path: &str) -> (handle: ModelHandle)
        requires
            old(self).wf(),
        ensures
            final(self).wf(),
            old(self)@.requested(path@, final(self)@, handle),
    {
        broadcast use vstd::std_specs::hash::group_hash_axioms;

        let owned: String = path.to_owned();
        let mut i: usize = 0;
        while i < self.paths.len()
            invariant
                *self == *old(self),
                self.wf(),
                i <= self.paths@.len(),
                owned@ == path@,
                forall|j: int| 0 <= j < i ==> (#[trigger] self.paths@[j])@ != path@,
            decreases self.paths.len() - i,
        {
            if self.paths[i] == owned {
                return ModelHandle { id: i };
            }
            i = i + 1;
        }
        let id: usize = self.paths.len();
        self.paths.push(owned);
        self.load_queue.push_back(id);
        proof {
            let q = self.load_queue@;
            let q0 = old(self).load_queue@;
            assert forall|other: usize| other < self.paths@.len() implies #[trigger] self.asset_map@.contains_key(
                other,
            ) || q.contains(other) by {
                if other < id {
                    if !self.asset_map@.contains_key(other) {
                        assert(q0.contains(other));
                        let k = choose|k: int| 0 <= k < q0.len() && q0[k] == other;
                        assert(q[k] == other);
                    }
                } else {
                    assert(q[q.len() - 1] == id);
                }
            }
            assert(self.wf());
            assert(final(self)@.models =~= old(self)@.models);
            assert(final(self)@.paths.drop_last() =~= old(self)@.paths);
            assert(final(self)@.pending =~= old(self)@.pending.push(ModelHandle { id }));
        }
        ModelHandle { id }
    }

    /// The model behind `handle`, or `None` while it is not loaded.
    pub fn get_model(&self, handle: &ModelHandle) -> (model: Option<&Model>)
        requires
            self.wf(),
        ensures
            model is Some <==> self@.is_loaded(*handle),
            model is Some ==> *model->0 == self@.models[*handle],
    {
        broadcast use vstd::std_specs::hash::group_hash_axioms;

        self.asset_map.get(&handle.id)
    }

    /// The oldest pending handle and its path, if anything is pending.
    pub fn next_pending(&self) -> (next: Option<(ModelHandle, &String)>)
        requires
            self.wf(),
        ensures
            match next {
                None => self@.pending.len() == 0,
                Some((handle, path)) => {
                    &&& self@.pending.len() > 0
                    &&& handle == self@.pending[0]
                    &&& handle.id < self@.paths.len()
                    &&& *path == self@.paths[handle.id as int]
                },
            },
    {
        if self.load_queue.len() == 0 {
            None
        } else {
            let id: usize = self.load_queue[0];
            Some((ModelHandle { id }, &self.paths[id]))
        }
    }

    /// Takes what a loader returned for the oldest pending handle.
    ///
    /// A model is stored under that handle, which leaves the queue. A failure
    /// is reported with the path that was asked for; the handle stays pending.
    /// With nothing pending the outcome is dropped.
    pub fn finish_load(&mut self, outcome: Result<Model, String>) -> (res: Result<
        Option<ModelHandle>,
        LoadError,
    >)
        requires
            old(self).wf(),
        ensures
            final(self).wf(),
            old(self)@.pending.len() == 0 ==> {
                &&& res == Ok::<Option<ModelHandle>, LoadError>(None)
                &&& final(self)@ == old(self)@
            },
            old(self)@.pending.len() > 0 ==> match outcome {
                Ok(model) => {
                    &&& res == Ok::<Option<ModelHandle>, LoadError>(Some(old(self)@.pending[0]))
                    &&& final(self)@ == old(self)@.stored(model)
                },
                Err(reason) => {
                    &&& res is Err
                    &&& res->Err_0.path == old(self)@.paths[old(self)@.pending[0].id as int]
                    &&& res->Err_0.reason == reason
                    &&& final(self)@ == old(self)@
                },
            },
    {
        broadcast use vstd::std_specs::hash::group_hash_axioms;

        if self.load_queue.len() == 0 {
            return Ok(None);
        }
        let id: usize = self.load_queue[0];
        match outcome {
            Ok(model) => {
                self.asset_map.insert(id, model);
                self.load_queue.pop_front();
                proof {
                    let q0 = old(self).load_queue@;
                    let q = self.load_queue@;
                    assert(q =~= q0.drop_first());
                    assert forall|other: usize| other < self.paths@.len() implies #[trigger] self.asset_map@.contains_key(
                        other,
                    ) || q.contains(other) by {
                        if other != id && !old(self).asset_map@.contains_key(other) {
                            assert(q0.contains(other));
                            let k = choose|k: int| 0 <= k < q0.len() && q0[k] == other;
                            assert(k != 0);
                            assert(q[k - 1] == other);
                        }
                    }
                    assert forall|k: int| 0 <= k < q.len() implies (#[trigger] q[k]) < self.paths@.len()
                        && !self.asset_map@.contains_key(q[k]) by {
                        assert(q[k] == q0[k + 1]);
                    }
                    assert forall|k: int, l: int| 0 <= k < l < q.len() implies #[trigger] q[k]
                        != #[trigger] q[l] by {
                        assert(q[k] == q0[k + 1]);
                        assert(q[l] == q0[l + 1]);
                    }
                    assert(final(self)@.pending =~= old(self)@.pending.drop_first());
                    assert(final(self)@.models =~= old(self)@.models.insert(old(self)@.pending[0], model));
                }
                Ok(Some(ModelHandle { id }))
            },
            Err(reason) => Err(LoadError { path: self.paths[id].clone(), reason }),
        }
    }

    /// Loads every pending model, oldest first, and empties the queue.
    ///
    /// `loader` is asked once for each pending path. The first failure ends
    /// the run: it is returned with its path, and the handle it belongs to
    /// stays at the head of the queue together with all that follow it.
    /// Returns the number of models loaded. With an empty queue nothing
    /// happens.
    pub fn clear_load_queue<F: Fn(&String) -> Result<Model, String>>(&mut self, loader: F) -> (res:
        Result<usize, LoadError>)
        requires
            old(self).wf(),
            forall|k: int|
                0 <= k < old(self)@.pending.len() ==> call_requires(
                    loader,
                    (&old(self)@.paths[(#[trigger] old(self)@.pending[k]).id as int],),
                ),
        ensures
            final(self).wf(),
            match res {
                Ok(n) => n == old(self)@.pending.len() && old(self)@.drained(loader, final(self)@),
                Err(e) => old(self)@.drain_failed(loader, final(self)@, e),
            },
    {
        let mut n: usize = 0;
        proof {
            old(self).lemma_wf();
            assert(self.load_queue.len() == self.load_queue@.len());
            assert(self@.pending =~= old(self)@.pending.skip(0));
        }
        loop
            invariant
                self.wf(),
                old(self)@.pending.len() <= usize::MAX,
                old(self).wf(),
                old(self)@.wf(),
                n <= old(self)@.pending.len(),
                old(self)@.loaded_by(loader, self@, n as int),
                forall|k: int|
                    0 <= k < old(self)@.pending.len() ==> call_requires(
                        loader,
                        (&old(self)@.paths[(#[trigger] old(self)@.pending[k]).id as int],),
                    ),
            decreases old(self)@.pending.len() - n,
        {
            let path: String = match self.next_pending() {
                None => {
                    return Ok(n);
                },
                Some((_, path)) => path.clone(),
            };
            proof {
                assert(self@.pending.len() == old(self)@.pending.len() - n);
                assert(self@.pending[0] == old(self)@.pending[n as int]);
            }
            let ghost before = self@;
            let ghost handle = old(self)@.pending[n as int];
            let outcome = loader(&path);
            match self.finish_load(outcome) {
                Ok(_) => {
                    proof {
                        let start = old(self)@;
                        assert(self@.pending =~= start.pending.skip(n + 1));
                        assert(start.pending.contains(handle));
                        assert forall|k: int| 0 <= k < n implies self@.is_loaded(#[trigger] start.pending[k])
                            && self@.models[start.pending[k]] == before.models[start.pending[k]] by {
                            assert(start.pending[k] != handle);
                        }
                        assert forall|h: ModelHandle| #[trigger] self@.is_loaded(h) implies start.is_loaded(h)
                            || start.pending.take(n + 1).contains(h) by {
                            if h == handle {
                                assert(start.pending.take(n + 1)[n as int] == h);
                            } else if !start.is_loaded(h) {
                                assert(before.is_loaded(h));
                                let k = choose|k: int|
                                    0 <= k < start.pending.take(n as int).len() && start.pending.take(
                                        n as int,
                                    )[k] == h;
                                assert(start.pending.take(n + 1)[k] == h);
                            }
                        }
                    }
                    n = n + 1;
                },
                Err(e) => {
                    return Err(e);
                },
            }
        }
    }
}

} // verus!
