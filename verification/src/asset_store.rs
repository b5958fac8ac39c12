//! The asset registry: tags bound to handles, atlas requests that wait for
//! their source image, and the atlases that were realized.

use vstd::prelude::*;
use crate::atlas_layout::{grid_fits, grid_layout, AtlasLayout, AtlasLayoutView};
use crate::handle::{RawHandle, ResolvedAtlas};
use crate::loaded_assets::LoadedAssets;
use crate::seq_lemmas::lemma_filter_push;
use crate::tag_map::{tag_index_contents, TagIndex};

verus! {

/// A tile sheet that is to become a sprite atlas once its source image has
/// been loaded.
#[derive(Clone, Debug, PartialEq, Eq)]
pub struct FutureAtlas {
    pub tag: String,
    pub texture_tag: String,
    pub tile_width: u32,
    pub tile_height: u32,
    pub columns: u32,
    pub rows: u32,
}

/// The mathematical value of a [`FutureAtlas`].
pub struct FutureAtlasView {
    pub tag: Seq<char>,
    pub texture_tag: Seq<char>,
    pub tile_width: u32,
    pub tile_height: u32,
    pub columns: u32,
    pub rows: u32,
}

impl View for FutureAtlas {
    type V = FutureAtlasView;

    open spec fn view(&self) -> FutureAtlasView {
        FutureAtlasView {
            tag: self.tag@,
            texture_tag: self.texture_tag@,
            tile_width: self.tile_width,
            tile_height: self.tile_height,
            columns: self.columns,
            rows: self.rows,
        }
    }
}

impl FutureAtlasView {
    /// Whether the grid that the request describes can be laid out.
    pub open spec fn buildable(self) -> bool {
        grid_fits(self.tile_width, self.tile_height, self.columns, self.rows)
    }

    /// The layout that the request describes.
    pub open spec fn layout(self) -> AtlasLayoutView {
        grid_layout(self.tile_width, self.tile_height, self.columns, self.rows)
    }
}

/// The mathematical value of an [`AssetStore`].
pub struct AssetStoreView {
    /// The handle bound to each registered tag.
    pub index: Map<Seq<char>, RawHandle>,
    /// The atlas requests that wait for their source image, oldest first.
    pub pending: Seq<FutureAtlasView>,
    /// The atlas realized under each tag.
    pub atlases: Map<Seq<char>, ResolvedAtlas>,
    /// The layouts built so far; a layout handle is a position in this list.
    pub layouts: Seq<AtlasLayoutView>,
}

impl AssetStoreView {
    /// A registry in which nothing was registered or declared.
    pub open spec fn empty() -> AssetStoreView {
        AssetStoreView {
            index: Map::empty(),
            pending: Seq::empty(),
            atlases: Map::empty(),
            layouts: Seq::empty(),
        }
    }

    /// Every realized atlas refers to a layout that the registry holds.
    pub open spec fn wf(self) -> bool {
        forall|tag: Seq<char>| #[trigger]
            self.atlases.contains_key(tag) ==> self.atlases[tag].layout_handle.id
                < self.layouts.len()
    }

    /// The registry after `tag` was bound to `handle`.
    pub open spec fn register(self, tag: Seq<char>, handle: RawHandle) -> AssetStoreView {
        AssetStoreView { index: self.index.insert(tag, handle), ..self }
    }

    /// The registry after `request` was appended to the pending list.
    pub open spec fn declare_atlas(self, request: FutureAtlasView) -> AssetStoreView {
        AssetStoreView { pending: self.pending.push(request), ..self }
    }

    /// The resource behind `tag`: present when the tag is registered and
    /// the load of the handle bound to it is complete.
    pub open spec fn get_handle(
        self,
        tag: Seq<char>,
        loaded: Map<RawHandle, RawHandle>,
    ) -> Option<RawHandle> {
        if self.index.contains_key(tag) && loaded.contains_key(self.index[tag]) {
            Some(loaded[self.index[tag]])
        } else {
            None
        }
    }

    /// The image and layout handles of the atlas realized under `tag`.
    pub open spec fn get_atlas_handle(self, tag: Seq<char>) -> Option<(RawHandle, RawHandle)> {
        if self.atlases.contains_key(tag) {
            Some((self.atlases[tag].image_handle, self.atlases[tag].layout_handle))
        } else {
            None
        }
    }

    /// Whether every declared atlas has been dealt with.
    pub open spec fn is_ready(self) -> bool {
        self.pending.len() == 0
    }

    /// The requests that `reconcile` leaves pending: those whose source
    /// image does not resolve.
    pub open spec fn stays(self, loaded: Map<RawHandle, RawHandle>) -> spec_fn(
        FutureAtlasView,
    ) -> bool {
        |request: FutureAtlasView| self.get_handle(request.texture_tag, loaded) is None
    }

    /// The requests that `reconcile` realizes: those whose source image
    /// resolves and whose grid can be laid out.
    pub open spec fn builds(self, loaded: Map<RawHandle, RawHandle>) -> spec_fn(
        FutureAtlasView,
    ) -> bool {
        |request: FutureAtlasView|
            self.get_handle(request.texture_tag, loaded) is Some && request.buildable()
    }

    /// The atlas map after the requests of `built` were realized in order,
    /// the layout of request `k` taking position `self.layouts.len() + k`.
    /// Where two of them share a tag, the later one is kept.
    pub open spec fn place(
        self,
        built: Seq<FutureAtlasView>,
        loaded: Map<RawHandle, RawHandle>,
    ) -> Map<Seq<char>, ResolvedAtlas>
        decreases built.len(),
    {
        if built.len() == 0 {
            self.atlases
        } else {
            let request = built.last();
            self.place(built.drop_last(), loaded).insert(
                request.tag,
                ResolvedAtlas {
                    image_handle: self.get_handle(request.texture_tag, loaded).unwrap(),
                    layout_handle: RawHandle {
                        id: (self.layouts.len() + built.len() - 1) as u64,
                    },
                },
            )
        }
    }

    /// The registry after one reconciliation against `loaded`. A pending
    /// request whose source image resolves is consumed: where its grid can
    /// be laid out, its layout joins the layout list and its atlas is stored
    /// under its tag; where it cannot, the request is dropped. The other
    /// requests stay pending, in their order.
    pub open spec fn reconcile(self, loaded: Map<RawHandle, RawHandle>) -> AssetStoreView {
        let built = self.pending.filter(self.builds(loaded));
        AssetStoreView {
            index: self.index,
            pending: self.pending.filter(self.stays(loaded)),
            atlases: self.place(built, loaded),
            layouts: self.layouts + built.map_values(|request: FutureAtlasView| request.layout()),
        }
    }
}

/// A registry of named resources. It binds string tags to handles of the
/// asset-loading subsystem, keeps the atlas requests whose source image is
/// still loading, and holds the atlases that were realized.
pub struct AssetStore {
    asset_index: TagIndex,
    atlases_to_build: Vec<FutureAtlas>,
    atlas_images: TagIndex,
    atlas_layouts: TagIndex,
    layouts: Vec<AtlasLayout>,
}

impl View for AssetStore {
    type V = AssetStoreView;

    closed spec fn view(&self) -> AssetStoreView {
        let index = tag_index_contents(self.asset_index);
        let images = tag_index_contents(self.atlas_images);
        let positions = tag_index_contents(self.atlas_layouts);
        AssetStoreView {
            index: Map::new(
                |tag: Seq<char>| index.contains_key(tag),
                |tag: Seq<char>| RawHandle { id: index[tag] },
            ),
            pending: self.atlases_to_build@.map_values(|request: FutureAtlas| request@),
            atlases: Map::new(
                |tag: Seq<char>| images.contains_key(tag) && positions.contains_key(tag),
                |tag: Seq<char>|
                    ResolvedAtlas {
                        image_handle: RawHandle { id: images[tag] },
                        layout_handle: RawHandle { id: positions[tag] },
                    },
            ),
            layouts: self.layouts@.map_values(|layout: AtlasLayout| layout@),
        }
    }
}

impl AssetStore {
    /// A registry without tags, requests or atlases.
    pub fn new() -> (store: AssetStore)
        ensures
            store@ == AssetStoreView::empty(),
    {
        let store = AssetStore {
            asset_index: TagIndex::new(),
            atlases_to_build: Vec::new(),
            atlas_images: TagIndex::new(),
            atlas_layouts: TagIndex::new(),
            layouts: Vec::new(),
        };
        assert(store@.index =~= Map::empty());
        assert(store@.pending =~= Seq::empty());
        assert(store@.atlases =~= Map::empty());
        assert(store@.layouts =~= Seq::empty());
        store
    }

    /// Binds `tag` to `raw_handle`. A tag that was bound before is bound
    /// anew: the last write wins.
    pub fn register(&mut self, tag: String, raw_handle: RawHandle)
        ensures
            final(self)@ == old(self)@.register(tag@, raw_handle),
    {
        self.asset_index.insert(tag, raw_handle.id);
        assert(self@.index =~= old(self)@.index.insert(tag@, raw_handle));
    }

    /// Declares an atlas that is to be cut from the image registered under
    /// `source_image_tag`, once that image is loaded. The source tag need
    /// not be registered yet.
    pub fn declare_atlas(
        &mut self,
        tag: String,
        source_image_tag: String,
        tile_width: u32,
        tile_height: u32,
        columns: u32,
        rows: u32,
    )
        ensures
            final(self)@ == old(self)@.declare_atlas(
                FutureAtlasView {
                    tag: tag@,
                    texture_tag: source_image_tag@,
                    tile_width,
                    tile_height,
                    columns,
                    rows,
                },
            ),
    {
        let request = FutureAtlas {
            tag,
            texture_tag: source_image_tag,
            tile_width,
            tile_height,
            columns,
            rows,
        };
        self.atlases_to_build.push(request);
        assert(self@.pending =~= old(self)@.pending.push(request@));
    }

    /// Looks `index` up and, only if the load of the handle bound to it is
    /// complete, returns the resource that the load resolved to. The
    /// registry does not check of what kind that resource is.
    pub fn get_handle(&self, index: &str, assets: &LoadedAssets) -> (handle: Option<RawHandle>)
        ensures
            handle == self@.get_handle(index@, assets@),
    {
        match self.asset_index.get(index) {
            Some(id) => assets.get(RawHandle { id }),
            None => None,
        }
    }

    /// The image handle and the layout handle of the atlas realized under
    /// `index`; `None` if no such atlas was declared, or it is still pending.
    pub fn get_atlas_handle(&self, index: &str) -> (atlas: Option<(RawHandle, RawHandle)>)
        ensures
            atlas == self@.get_atlas_handle(index@),
    {
        match (self.atlas_images.get(index), self.atlas_layouts.get(index)) {
            (Some(image), Some(position)) => Some(
                (RawHandle { id: image }, RawHandle { id: position }),
            ),
            _ => None,
        }
    }

    /// The handle of the sound registered under `sound_name`, which the
    /// caller is to start playing. The sound must be registered and loaded.
    pub fn play(&self, sound_name: &str, assets: &LoadedAssets) -> (sound: RawHandle)
        requires
            self@.get_handle(sound_name@, assets@) is Some,
        ensures
            Some(sound) == self@.get_handle(sound_name@, assets@),
    {
        self.get_handle(sound_name, assets).unwrap()
    }

    /// Promotes the pending atlas requests whose source image has been
    /// loaded. Each such request is consumed: its layout is built and its
    /// atlas stored under its tag, or, where its grid cannot be laid out,
    /// the request is dropped. Requests whose source image does not resolve
    /// stay pending, in their order.
    pub fn reconcile(&mut self, loaded_sources: &LoadedAssets)
        ensures
            final(self)@ == old(self)@.reconcile(loaded_sources@),
    {
        let ghost before = self@;
        let ghost loaded = loaded_sources@;
        let ghost as_view = |request: FutureAtlas| request@;
        let ghost as_layout = |request: FutureAtlasView| request.layout();
        let mut pending: Vec<FutureAtlas> = Vec::new();
        std::mem::swap(&mut pending, &mut self.atlases_to_build);
        let ghost asked = pending@;
        proof {
            reveal(Seq::filter);
            assert(asked.map_values(as_view) == before.pending);
            assert(before.pending.take(0) =~= Seq::<FutureAtlasView>::empty());
            assert(self@.pending =~= before.pending.take(0).filter(before.stays(loaded)));
            assert(self@.layouts =~= before.layouts + before.pending.take(0).filter(
                before.builds(loaded),
            ).map_values(as_layout));
        }
        for request in it: pending
            invariant
                it.seq() == asked,
                asked.map_values(as_view) == before.pending,
                loaded == loaded_sources@,
                as_view == |request: FutureAtlas| request@,
                as_layout == |request: FutureAtlasView| request.layout(),
                self@.index == before.index,
                self@.pending == before.pending.take(it.index()).filter(before.stays(loaded)),
                self@.layouts == before.layouts + before.pending.take(it.index()).filter(
                    before.builds(loaded),
                ).map_values(as_layout),
                self@.atlases == before.place(
                    before.pending.take(it.index()).filter(before.builds(loaded)),
                    loaded,
                ),
        {
            let ghost seen = before.pending.take(it.index());
            let ghost built = seen.filter(before.builds(loaded));
            proof {
                assert(asked.map_values(as_view)[it.index()] == request@);
                assert(before.pending.take(it.index() + 1) =~= seen.push(request@));
                lemma_filter_push(seen, request@, before.stays(loaded));
                lemma_filter_push(seen, request@, before.builds(loaded));
            }
            match self.get_handle(request.texture_tag.as_str(), loaded_sources) {
                None => {
                    let ghost kept = self@.pending;
                    self.atlases_to_build.push(request);
                    assert(self@.pending =~= kept.push(request@));
                },
                Some(image_handle) => {
                    let built_layout = AtlasLayout::from_grid(
                        request.tile_width,
                        request.tile_height,
                        request.columns,
                        request.rows,
                    );
                    match built_layout {
                        Some(layout) => {
                            let position: u64 = self.layouts.len() as u64;
                            let ghost layouts_before = self@.layouts;
                            let ghost atlases_before = self@.atlases;
                            assert(layouts_before.len() == self.layouts@.len());
                            assert(layouts_before.len() == before.layouts.len()
                                + built.map_values(as_layout).len());
                            self.layouts.push(layout);
                            self.atlas_images.insert(request.tag.clone(), image_handle.id);
                            self.atlas_layouts.insert(request.tag, position);
                            proof {
                                let grown = built.push(request@);
                                assert(grown.drop_last() =~= built);
                                assert(self@.layouts =~= layouts_before.push(request@.layout()));
                                assert(self@.layouts =~= before.layouts + grown.map_values(
                                    as_layout,
                                ));
                                assert(self@.atlases =~= atlases_before.insert(
                                    request@.tag,
                                    ResolvedAtlas {
                                        image_handle,
                                        layout_handle: RawHandle { id: position },
                                    },
                                ));
                            }
                        },
                        None => {},
                    }
                },
            }
        }
        proof {
            assert(before.pending.take(asked.len() as int) =~= before.pending);
        }
    }

    /// Whether every declared atlas has been dealt with.
    pub fn is_ready(&self) -> (ready: bool)
        ensures
            ready == self@.is_ready(),
    {
        self.atlases_to_build.len() == 0
    }

    /// The atlas requests that wait for their source image, oldest first.
    pub fn pending(&self) -> (requests: &Vec<FutureAtlas>)
        ensures
            requests@.map_values(|request: FutureAtlas| request@) == self@.pending,
    {
        &self.atlases_to_build
    }

    /// The layout behind a layout handle of this registry.
    pub fn layout(&self, layout_handle: RawHandle) -> (layout: Option<&AtlasLayout>)
        ensures
            layout is Some <==> layout_handle.id < self@.layouts.len(),
            layout matches Some(l) ==> l@ == self@.layouts[layout_handle.id as int],
    {
        if layout_handle.id < self.layouts.len() as u64 {
            Some(&self.layouts[layout_handle.id as usize])
        } else {
            None
        }
    }
}

} // verus!
