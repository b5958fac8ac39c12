use my_library::{AssetStore, FutureAtlas, LoadedAssets, RawHandle, TileRect};

fn handle(id: u64) -> RawHandle {
    RawHandle { id }
}

#[test]
fn unknown_tag_is_absent() {
    let mut store = AssetStore::new();
    let mut loaded = LoadedAssets::new();
    store.register("dice_image".to_string(), handle(1));
    store.declare_atlas("dice".to_string(), "dice_image".to_string(), 52, 52, 6, 1);
    loaded.insert(handle(1), handle(10));
    store.reconcile(&loaded);
    assert_eq!(store.get_handle("never", &loaded), None);
    assert_eq!(store.get_atlas_handle("never"), None);
    assert_eq!(store.get_handle("dice", &loaded), None);
    assert_eq!(store.get_atlas_handle("dice_image"), None);
}

#[test]
fn new_store_is_empty_and_ready() {
    let store = AssetStore::new();
    let loaded = LoadedAssets::new();
    assert!(store.is_ready());
    assert_eq!(store.get_handle("main_menu", &loaded), None);
    assert_eq!(store.get_atlas_handle("main_menu"), None);
    assert!(store.layout(handle(0)).is_none());
}

#[test]
fn registered_tag_resolves_once_loaded() {
    let mut store = AssetStore::new();
    let mut loaded = LoadedAssets::new();
    store.register("main_menu".to_string(), handle(7));
    assert_eq!(store.get_handle("main_menu", &loaded), None);
    loaded.insert(handle(7), handle(70));
    assert_eq!(store.get_handle("main_menu", &loaded), Some(handle(70)));
    loaded.remove(handle(7));
    assert_eq!(store.get_handle("main_menu", &loaded), None);
}

#[test]
fn lookup_goes_by_the_whole_tag() {
    let mut store = AssetStore::new();
    let mut loaded = LoadedAssets::new();
    store.register("menu".to_string(), handle(1));
    store.register("menu2".to_string(), handle(2));
    loaded.insert(handle(1), handle(11));
    loaded.insert(handle(2), handle(22));
    assert_eq!(store.get_handle("menu", &loaded), Some(handle(11)));
    assert_eq!(store.get_handle("menu2", &loaded), Some(handle(22)));
    assert_eq!(store.get_handle("men", &loaded), None);
    assert_eq!(store.get_handle("", &loaded), None);
}

#[test]
fn register_overwrites() {
    let mut store = AssetStore::new();
    let mut loaded = LoadedAssets::new();
    loaded.insert(handle(1), handle(100));
    loaded.insert(handle(2), handle(200));
    store.register("hero".to_string(), handle(1));
    assert_eq!(store.get_handle("hero", &loaded), Some(handle(100)));
    store.register("hero".to_string(), handle(2));
    assert_eq!(store.get_handle("hero", &loaded), Some(handle(200)));
}

#[test]
fn register_overwrite_forgets_a_loaded_first_handle() {
    let mut store = AssetStore::new();
    let mut loaded = LoadedAssets::new();
    loaded.insert(handle(1), handle(100));
    store.register("hero".to_string(), handle(1));
    store.register("hero".to_string(), handle(2));
    assert_eq!(store.get_handle("hero", &loaded), None);
}

#[test]
fn declared_atlas_waits_for_its_source() {
    let mut store = AssetStore::new();
    let loaded = LoadedAssets::new();
    store.declare_atlas("dice".to_string(), "dice_image".to_string(), 52, 52, 6, 1);
    assert_eq!(store.get_atlas_handle("dice"), None);
    assert!(!store.is_ready());
    store.reconcile(&loaded);
    assert_eq!(store.get_atlas_handle("dice"), None);
    assert!(!store.is_ready());
    store.register("dice_image".to_string(), handle(3));
    store.reconcile(&loaded);
    assert_eq!(store.get_atlas_handle("dice"), None);
    assert!(!store.is_ready());
}

#[test]
fn dice_atlas_scenario() {
    let mut store = AssetStore::new();
    let mut loaded = LoadedAssets::new();
    store.register("dice_image".to_string(), handle(3));
    store.declare_atlas("dice".to_string(), "dice_image".to_string(), 52, 52, 6, 1);
    assert_eq!(store.get_atlas_handle("dice"), None);
    loaded.insert(handle(3), handle(30));
    store.reconcile(&loaded);
    let (image_handle, layout_handle) = store.get_atlas_handle("dice").unwrap();
    assert_eq!(image_handle, handle(30));
    assert_eq!(layout_handle, handle(0));
    assert!(store.is_ready());
    let layout = store.layout(layout_handle).unwrap();
    assert_eq!(layout.width, 312);
    assert_eq!(layout.height, 52);
    assert_eq!(layout.tiles.len(), 6);
    for (i, tile) in layout.tiles.iter().enumerate() {
        let x = i as u32 * 52;
        assert_eq!(*tile, TileRect { min_x: x, min_y: 0, max_x: x + 52, max_y: 52 });
        assert_eq!(tile.max_x - tile.min_x, 52);
        assert_eq!(tile.max_y - tile.min_y, 52);
    }
}

#[test]
fn reconcile_is_idempotent() {
    let mut store = AssetStore::new();
    let mut loaded = LoadedAssets::new();
    store.register("dice_image".to_string(), handle(3));
    store.declare_atlas("dice".to_string(), "dice_image".to_string(), 52, 52, 6, 1);
    store.declare_atlas("cards".to_string(), "card_image".to_string(), 10, 20, 4, 2);
    loaded.insert(handle(3), handle(30));
    store.reconcile(&loaded);
    let dice = store.get_atlas_handle("dice");
    assert_eq!(dice, Some((handle(30), handle(0))));
    assert_eq!(store.get_atlas_handle("cards"), None);
    assert!(!store.is_ready());
    store.reconcile(&loaded);
    assert_eq!(store.get_atlas_handle("dice"), dice);
    assert_eq!(store.get_atlas_handle("cards"), None);
    assert!(!store.is_ready());
    assert!(store.layout(handle(0)).is_some());
    assert!(store.layout(handle(1)).is_none());
}

#[test]
fn later_loads_are_picked_up_by_later_reconciliations() {
    let mut store = AssetStore::new();
    let mut loaded = LoadedAssets::new();
    store.register("a_image".to_string(), handle(1));
    store.register("b_image".to_string(), handle(2));
    store.declare_atlas("a".to_string(), "a_image".to_string(), 8, 8, 2, 2);
    store.declare_atlas("b".to_string(), "b_image".to_string(), 4, 4, 3, 1);
    loaded.insert(handle(2), handle(20));
    store.reconcile(&loaded);
    assert_eq!(store.get_atlas_handle("a"), None);
    assert_eq!(store.get_atlas_handle("b"), Some((handle(20), handle(0))));
    assert!(!store.is_ready());
    loaded.insert(handle(1), handle(10));
    store.reconcile(&loaded);
    assert_eq!(store.get_atlas_handle("a"), Some((handle(10), handle(1))));
    assert_eq!(store.get_atlas_handle("b"), Some((handle(20), handle(0))));
    assert!(store.is_ready());
    assert_eq!(store.layout(handle(0)).unwrap().tiles.len(), 3);
    assert_eq!(store.layout(handle(1)).unwrap().tiles.len(), 4);
}

#[test]
fn requests_are_realized_in_the_order_declared() {
    let mut store = AssetStore::new();
    let mut loaded = LoadedAssets::new();
    store.register("sheet".to_string(), handle(1));
    store.register("other".to_string(), handle(2));
    loaded.insert(handle(1), handle(10));
    loaded.insert(handle(2), handle(20));
    store.declare_atlas("first".to_string(), "sheet".to_string(), 8, 8, 1, 1);
    store.declare_atlas("twice".to_string(), "sheet".to_string(), 8, 8, 2, 1);
    store.declare_atlas("twice".to_string(), "other".to_string(), 8, 8, 3, 1);
    store.reconcile(&loaded);
    assert!(store.is_ready());
    assert_eq!(store.get_atlas_handle("first"), Some((handle(10), handle(0))));
    assert_eq!(store.get_atlas_handle("twice"), Some((handle(20), handle(2))));
    assert_eq!(store.layout(handle(1)).unwrap().tiles.len(), 2);
    assert_eq!(store.layout(handle(2)).unwrap().tiles.len(), 3);
    assert!(store.layout(handle(3)).is_none());
}

#[test]
fn a_grid_that_cannot_be_laid_out_is_dropped() {
    let mut store = AssetStore::new();
    let mut loaded = LoadedAssets::new();
    store.register("sheet".to_string(), handle(1));
    loaded.insert(handle(1), handle(10));
    store.declare_atlas("huge".to_string(), "sheet".to_string(), 65536, 1, 65536, 1);
    assert!(!store.is_ready());
    store.reconcile(&loaded);
    assert!(store.is_ready());
    assert_eq!(store.get_atlas_handle("huge"), None);
    assert!(store.layout(handle(0)).is_none());
}

#[test]
fn play_returns_the_loaded_sound() {
    let mut store = AssetStore::new();
    let mut loaded = LoadedAssets::new();
    store.register("click".to_string(), handle(5));
    loaded.insert(handle(5), handle(55));
    assert_eq!(store.play("click", &loaded), handle(55));
}

#[test]
fn loaded_assets_answer_for_each_load_handle() {
    let mut loaded = LoadedAssets::new();
    assert!(!loaded.contains(handle(1)));
    assert_eq!(loaded.get(handle(1)), None);
    loaded.insert(handle(1), handle(10));
    loaded.insert(handle(1), handle(11));
    loaded.insert(handle(2), handle(1));
    assert!(loaded.contains(handle(1)));
    assert_eq!(loaded.get(handle(1)), Some(handle(11)));
    assert_eq!(loaded.get(handle(2)), Some(handle(1)));
    assert_eq!(loaded.get(handle(10)), None);
}

#[test]
fn waiting_requests_keep_their_order() {
    let mut store = AssetStore::new();
    let mut loaded = LoadedAssets::new();
    assert!(store.pending().is_empty());
    store.register("b_image".to_string(), handle(2));
    loaded.insert(handle(2), handle(20));
    store.declare_atlas("a".to_string(), "a_image".to_string(), 8, 8, 2, 2);
    store.declare_atlas("b".to_string(), "b_image".to_string(), 4, 4, 3, 1);
    store.declare_atlas("c".to_string(), "c_image".to_string(), 1, 2, 3, 4);
    assert_eq!(store.pending().len(), 3);
    store.reconcile(&loaded);
    assert_eq!(
        store.pending(),
        &vec![
            FutureAtlas {
                tag: "a".to_string(),
                texture_tag: "a_image".to_string(),
                tile_width: 8,
                tile_height: 8,
                columns: 2,
                rows: 2,
            },
            FutureAtlas {
                tag: "c".to_string(),
                texture_tag: "c_image".to_string(),
                tile_width: 1,
                tile_height: 2,
                columns: 3,
                rows: 4,
            },
        ]
    );
}
