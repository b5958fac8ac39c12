//! What holds of the asset registry whatever is done to it, stated over
//! its mathematical value and proved.

use vstd::prelude::*;
use crate::asset_store::{AssetStoreView, FutureAtlasView};
use crate::handle::{RawHandle, ResolvedAtlas};
use crate::seq_lemmas::{
    lemma_filter_all_pass,
    lemma_filter_members,
    lemma_filter_none_pass,
    lemma_filter_push,
};

verus! {

/// One step in the life of a registry.
pub enum RegistryOp {
    Register { tag: Seq<char>, handle: RawHandle },
    DeclareAtlas { request: FutureAtlasView },
    Reconcile { loaded: Map<RawHandle, RawHandle> },
}

impl RegistryOp {
    /// Whether the step passes `tag` to `register` or to `declare_atlas`.
    pub open spec fn names(self, tag: Seq<char>) -> bool {
        match self {
            RegistryOp::Register { tag: bound, .. } => bound == tag,
            RegistryOp::DeclareAtlas { request } => request.tag == tag,
            RegistryOp::Reconcile { .. } => false,
        }
    }
}

impl AssetStoreView {
    /// The registry after one step.
    pub open spec fn apply(self, op: RegistryOp) -> AssetStoreView {
        match op {
            RegistryOp::Register { tag, handle } => self.register(tag, handle),
            RegistryOp::DeclareAtlas { request } => self.declare_atlas(request),
            RegistryOp::Reconcile { loaded } => self.reconcile(loaded),
        }
    }

    /// The registry after the steps of `ops`, taken in order.
    pub open spec fn run(self, ops: Seq<RegistryOp>) -> AssetStoreView
        decreases ops.len(),
    {
        if ops.len() == 0 {
            self
        } else {
            self.run(ops.drop_last()).apply(ops.last())
        }
    }

    /// Nothing in the registry goes by `tag`: it is bound to no handle, no
    /// atlas is stored under it, and no pending request asks for it.
    pub open spec fn knows_nothing_of(self, tag: Seq<char>) -> bool {
        &&& !self.index.contains_key(tag)
        &&& !self.atlases.contains_key(tag)
        &&& forall|k: int| 0 <= k < self.pending.len() ==> (#[trigger] self.pending[k]).tag != tag
    }

    /// The layout positions that a reconciliation may hand out can be
    /// written as handles.
    pub open spec fn positions_fit(self) -> bool {
        self.layouts.len() + self.pending.len() <= u64::MAX
    }
}

/// `place` leaves alone every tag that none of the realized requests asks
/// for.
proof fn lemma_place_spares_other_tags(
    store: AssetStoreView,
    built: Seq<FutureAtlasView>,
    loaded: Map<RawHandle, RawHandle>,
    tag: Seq<char>,
)
    requires
        forall|k: int| 0 <= k < built.len() ==> (#[trigger] built[k]).tag != tag,
    ensures
        store.place(built, loaded).contains_key(tag) == store.atlases.contains_key(tag),
        store.place(built, loaded).contains_key(tag) ==> store.place(built, loaded)[tag]
            == store.atlases[tag],
    decreases built.len(),
{
    if built.len() > 0 {
        let front = built.drop_last();
        assert(built[built.len() - 1].tag != tag);
        assert forall|k: int| 0 <= k < front.len() implies (#[trigger] front[k]).tag != tag by {
            assert(built[k].tag != tag);
        }
        lemma_place_spares_other_tags(store, front, loaded, tag);
    }
}

/// `place` stores an atlas under the tag of each realized request, and
/// keeps a tag that held an atlas before.
proof fn lemma_place_covers(
    store: AssetStoreView,
    built: Seq<FutureAtlasView>,
    loaded: Map<RawHandle, RawHandle>,
)
    ensures
        forall|k: int|
            0 <= k < built.len() ==> store.place(built, loaded).contains_key(
                (#[trigger] built[k]).tag,
            ),
        forall|tag: Seq<char>|
            store.atlases.contains_key(tag) ==> #[trigger] store.place(built, loaded).contains_key(
                tag,
            ),
    decreases built.len(),
{
    if built.len() > 0 {
        let front = built.drop_last();
        lemma_place_covers(store, front, loaded);
        assert forall|k: int| 0 <= k < built.len() implies store.place(built, loaded).contains_key(
            (#[trigger] built[k]).tag,
        ) by {
            if k < front.len() {
                assert(front[k] == built[k]);
            }
        }
        assert forall|tag: Seq<char>| store.atlases.contains_key(tag) implies #[trigger]
            store.place(built, loaded).contains_key(tag) by {
            assert(store.place(front, loaded).contains_key(tag));
        }
    }
}

/// Every atlas that `place` leaves in the map refers to a layout position
/// below `layouts.len() + built.len()`.
proof fn lemma_place_positions(
    store: AssetStoreView,
    built: Seq<FutureAtlasView>,
    loaded: Map<RawHandle, RawHandle>,
)
    requires
        store.wf(),
        store.layouts.len() + built.len() <= u64::MAX,
    ensures
        forall|tag: Seq<char>| #[trigger]
            store.place(built, loaded).contains_key(tag) ==> store.place(
                built,
                loaded,
            )[tag].layout_handle.id < store.layouts.len() + built.len(),
    decreases built.len(),
{
    if built.len() > 0 {
        let front = built.drop_last();
        lemma_place_positions(store, front, loaded);
        assert forall|tag: Seq<char>| #[trigger]
            store.place(built, loaded).contains_key(tag) implies store.place(
            built,
            loaded,
        )[tag].layout_handle.id < store.layouts.len() + built.len() by {
            if tag != built.last().tag {
                assert(store.place(front, loaded).contains_key(tag));
            }
        }
    }
}

/// Where several realized requests ask for one tag, the last of them
/// wins: the tag of a request that no later request repeats holds the
/// image of that request and the layout position that the request took.
pub proof fn lemma_place_last_wins(
    store: AssetStoreView,
    built: Seq<FutureAtlasView>,
    loaded: Map<RawHandle, RawHandle>,
    k: int,
)
    requires
        0 <= k < built.len(),
        forall|later: int| k < later < built.len() ==> (#[trigger] built[later]).tag != built[k].tag,
    ensures
        store.place(built, loaded).contains_key(built[k].tag),
        store.place(built, loaded)[built[k].tag] == (ResolvedAtlas {
            image_handle: store.get_handle(built[k].texture_tag, loaded).unwrap(),
            layout_handle: RawHandle { id: (store.layouts.len() + k) as u64 },
        }),
    decreases built.len(),
{
    if k < built.len() - 1 {
        let front = built.drop_last();
        assert(built[built.len() - 1].tag != built[k].tag);
        assert forall|later: int| k < later < front.len() implies (#[trigger] front[later]).tag
            != front[k].tag by {
            assert(built[later].tag != built[k].tag);
        }
        lemma_place_last_wins(store, front, loaded, k);
    }
}

/// A tag that no step registers or declares stays unknown: whatever else
/// was done to a new registry, `get_handle` and `get_atlas_handle` find
/// nothing under it.
pub proof fn lemma_unknown_tag_is_absent(
    ops: Seq<RegistryOp>,
    tag: Seq<char>,
    loaded: Map<RawHandle, RawHandle>,
)
    requires
        forall|i: int| 0 <= i < ops.len() ==> !(#[trigger] ops[i]).names(tag),
    ensures
        AssetStoreView::empty().run(ops).knows_nothing_of(tag),
        AssetStoreView::empty().run(ops).get_handle(tag, loaded) is None,
        AssetStoreView::empty().run(ops).get_atlas_handle(tag) is None,
    decreases ops.len(),
{
    if ops.len() > 0 {
        lemma_unknown_tag_is_absent(ops.drop_last(), tag, loaded);
        let store = AssetStoreView::empty().run(ops.drop_last());
        assert(!ops[ops.len() - 1].names(tag));
        match ops.last() {
            RegistryOp::Register { .. } => {},
            RegistryOp::DeclareAtlas { .. } => {},
            RegistryOp::Reconcile { loaded: sources } => {
                lemma_reconcile_keeps_unknown(store, sources, tag);
            },
        }
    }
}

/// Reconciliation brings no tag into the registry that was not in it.
pub proof fn lemma_reconcile_keeps_unknown(
    store: AssetStoreView,
    loaded: Map<RawHandle, RawHandle>,
    tag: Seq<char>,
)
    requires
        store.knows_nothing_of(tag),
    ensures
        store.reconcile(loaded).knows_nothing_of(tag),
{
    let built = store.pending.filter(store.builds(loaded));
    let kept = store.pending.filter(store.stays(loaded));
    lemma_filter_members(store.pending, store.builds(loaded));
    lemma_filter_members(store.pending, store.stays(loaded));
    assert forall|k: int| 0 <= k < built.len() implies (#[trigger] built[k]).tag != tag by {
        let j = choose|j: int| 0 <= j < store.pending.len() && store.pending[j] == built[k];
        assert(store.pending[j].tag != tag);
    }
    assert forall|k: int| 0 <= k < kept.len() implies (#[trigger] kept[k]).tag != tag by {
        let j = choose|j: int| 0 <= j < store.pending.len() && store.pending[j] == kept[k];
        assert(store.pending[j].tag != tag);
    }
    lemma_place_spares_other_tags(store, built, loaded, tag);
}

/// Once the load behind a registered handle has completed, `get_handle`
/// returns the resource that the load resolved to.
pub proof fn lemma_registered_and_loaded_resolves(
    store: AssetStoreView,
    tag: Seq<char>,
    handle: RawHandle,
    loaded: Map<RawHandle, RawHandle>,
    resource: RawHandle,
)
    ensures
        store.register(tag, handle).get_handle(tag, loaded.insert(handle, resource)) == Some(
            resource,
        ),
        !loaded.contains_key(handle) ==> store.register(tag, handle).get_handle(tag, loaded)
            is None,
{
}

/// Registering a tag a second time overwrites the first binding: the
/// registry is as if only the second handle had ever been bound, and
/// `get_handle` resolves through the second handle alone.
pub proof fn lemma_register_overwrites(
    store: AssetStoreView,
    tag: Seq<char>,
    first: RawHandle,
    second: RawHandle,
    loaded: Map<RawHandle, RawHandle>,
)
    ensures
        store.register(tag, first).register(tag, second) == store.register(tag, second),
        store.register(tag, first).register(tag, second).get_handle(tag, loaded) == (
        if loaded.contains_key(second) {
            Some(loaded[second])
        } else {
            None
        }),
{
    assert(store.index.insert(tag, first).insert(tag, second) =~= store.index.insert(tag, second));
}

/// A declared atlas whose source image does not resolve waits: the
/// registry is not ready, before and after a reconciliation, and the
/// request is still pending. If its tag was unknown before, no atlas is
/// found under it.
pub proof fn lemma_declared_atlas_waits(
    store: AssetStoreView,
    request: FutureAtlasView,
    loaded: Map<RawHandle, RawHandle>,
)
    requires
        store.get_handle(request.texture_tag, loaded) is None,
    ensures
        !store.declare_atlas(request).is_ready(),
        store.declare_atlas(request).get_atlas_handle(request.tag) == store.get_atlas_handle(
            request.tag,
        ),
        !store.declare_atlas(request).reconcile(loaded).is_ready(),
        store.declare_atlas(request).reconcile(loaded).pending.last() == request,
        store.knows_nothing_of(request.tag) ==> store.declare_atlas(request).reconcile(
            loaded,
        ).get_atlas_handle(request.tag) is None,
{
    let declared = store.declare_atlas(request);
    lemma_filter_push(store.pending, request, declared.stays(loaded));
    lemma_filter_push(store.pending, request, declared.builds(loaded));
    if store.knows_nothing_of(request.tag) {
        let built = declared.pending.filter(declared.builds(loaded));
        lemma_filter_members(store.pending, declared.builds(loaded));
        assert forall|k: int| 0 <= k < built.len() implies (#[trigger] built[k]).tag
            != request.tag by {
            let j = choose|j: int| 0 <= j < store.pending.len() && store.pending[j] == built[k];
            assert(store.pending[j].tag != request.tag);
        }
        lemma_place_spares_other_tags(declared, built, loaded, request.tag);
    }
}

/// A declared atlas whose source image is loaded is realized by one
/// reconciliation: `get_atlas_handle` returns the image that the source tag
/// resolves to and a layout handle behind which lies the grid that was
/// asked for. If nothing else was pending, the registry is ready.
pub proof fn lemma_loaded_source_realizes(
    store: AssetStoreView,
    request: FutureAtlasView,
    loaded: Map<RawHandle, RawHandle>,
)
    requires
        store.positions_fit(),
        store.get_handle(request.texture_tag, loaded) is Some,
        request.buildable(),
    ensures
        store.declare_atlas(request).reconcile(loaded).get_atlas_handle(request.tag) is Some,
        ({
            let after = store.declare_atlas(request).reconcile(loaded);
            let found = after.get_atlas_handle(request.tag).unwrap();
            &&& Some(found.0) == store.get_handle(request.texture_tag, loaded)
            &&& found.1.id < after.layouts.len()
            &&& after.layouts[found.1.id as int] == request.layout()
        }),
        store.is_ready() ==> store.declare_atlas(request).reconcile(loaded).is_ready(),
{
    let declared = store.declare_atlas(request);
    let lay = |r: FutureAtlasView| r.layout();
    lemma_filter_push(store.pending, request, declared.stays(loaded));
    lemma_filter_push(store.pending, request, declared.builds(loaded));
    let front = store.pending.filter(declared.builds(loaded));
    let built = front.push(request);
    store.pending.lemma_filter_len(declared.builds(loaded));
    assert(built.drop_last() =~= front);
    assert(built.map_values(lay)[front.len() as int] == request.layout());
    if store.is_ready() {
        assert(store.pending =~= Seq::empty());
        lemma_filter_none_pass(store.pending, declared.stays(loaded));
    }
}

/// A reconciliation leaves alone the atlas of every tag for which it
/// realizes no request.
pub proof fn lemma_reconcile_spares_other_tags(
    store: AssetStoreView,
    loaded: Map<RawHandle, RawHandle>,
    tag: Seq<char>,
)
    requires
        forall|k: int|
            0 <= k < store.pending.len() && (#[trigger] store.pending[k]).tag == tag ==> !(
            store.get_handle(store.pending[k].texture_tag, loaded) is Some
                && store.pending[k].buildable()),
    ensures
        store.reconcile(loaded).get_atlas_handle(tag) == store.get_atlas_handle(tag),
{
    let built = store.pending.filter(store.builds(loaded));
    lemma_filter_members(store.pending, store.builds(loaded));
    assert forall|k: int| 0 <= k < built.len() implies (#[trigger] built[k]).tag != tag by {
        let j = choose|j: int| 0 <= j < store.pending.len() && store.pending[j] == built[k];
        assert(store.builds(loaded)(store.pending[j]));
    }
    lemma_place_spares_other_tags(store, built, loaded, tag);
}

/// One reconciliation realizes every pending request whose source image is
/// loaded and whose grid can be laid out: an atlas is then found under its
/// tag.
pub proof fn lemma_reconcile_realizes_loaded(
    store: AssetStoreView,
    loaded: Map<RawHandle, RawHandle>,
    k: int,
)
    requires
        0 <= k < store.pending.len(),
        store.get_handle(store.pending[k].texture_tag, loaded) is Some,
        store.pending[k].buildable(),
    ensures
        store.reconcile(loaded).get_atlas_handle(store.pending[k].tag) is Some,
{
    let built = store.pending.filter(store.builds(loaded));
    lemma_filter_members(store.pending, store.builds(loaded));
    assert(built.contains(store.pending[k]));
    let j = choose|j: int| 0 <= j < built.len() && built[j] == store.pending[k];
    lemma_place_covers(store, built, loaded);
    assert(store.place(built, loaded).contains_key(built[j].tag));
}

/// After a reconciliation the registry is ready exactly if the source
/// image of every request that was pending resolves.
pub proof fn lemma_ready_after_reconcile(store: AssetStoreView, loaded: Map<RawHandle, RawHandle>)
    ensures
        store.reconcile(loaded).is_ready() <==> forall|k: int|
            0 <= k < store.pending.len() ==> store.get_handle(
                (#[trigger] store.pending[k]).texture_tag,
                loaded,
            ) is Some,
{
    let kept = store.pending.filter(store.stays(loaded));
    lemma_filter_members(store.pending, store.stays(loaded));
    if kept.len() == 0 {
        assert forall|k: int| 0 <= k < store.pending.len() implies store.get_handle(
            (#[trigger] store.pending[k]).texture_tag,
            loaded,
        ) is Some by {
            if store.get_handle(store.pending[k].texture_tag, loaded) is None {
                assert(kept.contains(store.pending[k]));
            }
        }
    } else {
        let j = choose|j: int| 0 <= j < store.pending.len() && store.pending[j] == kept[0];
        assert(store.get_handle(store.pending[j].texture_tag, loaded) is None);
    }
}

/// A reconciliation that finds no source image of a pending request
/// loaded changes nothing: not the atlas map, not the layouts, not the
/// pending list, and so not the answer of `is_ready`.
pub proof fn lemma_reconcile_without_news(store: AssetStoreView, loaded: Map<RawHandle, RawHandle>)
    requires
        forall|k: int|
            0 <= k < store.pending.len() ==> store.get_handle(
                (#[trigger] store.pending[k]).texture_tag,
                loaded,
            ) is None,
    ensures
        store.reconcile(loaded) == store,
{
    lemma_filter_all_pass(store.pending, store.stays(loaded));
    lemma_filter_none_pass(store.pending, store.builds(loaded));
    let after = store.reconcile(loaded);
    assert(after.layouts =~= store.layouts);
    assert(after.atlases =~= store.atlases);
}

/// Reconciling a second time against the same loaded sources changes
/// nothing.
pub proof fn lemma_reconcile_idempotent(store: AssetStoreView, loaded: Map<RawHandle, RawHandle>)
    ensures
        store.reconcile(loaded).reconcile(loaded) == store.reconcile(loaded),
{
    lemma_filter_members(store.pending, store.stays(loaded));
    lemma_reconcile_without_news(store.reconcile(loaded), loaded);
}

/// The operations keep the registry well formed: a new registry is, and
/// each of `register`, `declare_atlas` and `reconcile` leaves it so.
pub proof fn lemma_wf_is_kept(
    store: AssetStoreView,
    tag: Seq<char>,
    handle: RawHandle,
    request: FutureAtlasView,
    loaded: Map<RawHandle, RawHandle>,
)
    requires
        store.wf(),
    ensures
        AssetStoreView::empty().wf(),
        store.register(tag, handle).wf(),
        store.declare_atlas(request).wf(),
        store.positions_fit() ==> store.reconcile(loaded).wf(),
{
    if store.positions_fit() {
        let built = store.pending.filter(store.builds(loaded));
        store.pending.lemma_filter_len(store.builds(loaded));
        lemma_place_positions(store, built, loaded);
    }
}

} // verus!
