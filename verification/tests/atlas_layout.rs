use my_library::{check_grid_fits, AtlasLayout, TileRect};

#[test]
fn grid_is_indexed_left_to_right_then_top_to_bottom() {
    let layout = AtlasLayout::from_grid(16, 8, 3, 2).unwrap();
    assert_eq!(layout.width, 48);
    assert_eq!(layout.height, 16);
    assert_eq!(
        layout.tiles,
        vec![
            TileRect { min_x: 0, min_y: 0, max_x: 16, max_y: 8 },
            TileRect { min_x: 16, min_y: 0, max_x: 32, max_y: 8 },
            TileRect { min_x: 32, min_y: 0, max_x: 48, max_y: 8 },
            TileRect { min_x: 0, min_y: 8, max_x: 16, max_y: 16 },
            TileRect { min_x: 16, min_y: 8, max_x: 32, max_y: 16 },
            TileRect { min_x: 32, min_y: 8, max_x: 48, max_y: 16 },
        ]
    );
}

#[test]
fn grid_without_columns_or_rows_has_no_tiles() {
    let no_columns = AtlasLayout::from_grid(16, 8, 0, 2).unwrap();
    assert_eq!(no_columns.width, 0);
    assert_eq!(no_columns.height, 16);
    assert!(no_columns.tiles.is_empty());
    let no_rows = AtlasLayout::from_grid(16, 8, 3, 0).unwrap();
    assert_eq!(no_rows.width, 48);
    assert_eq!(no_rows.height, 0);
    assert!(no_rows.tiles.is_empty());
}

#[test]
fn grid_of_one_tile() {
    let layout = AtlasLayout::from_grid(52, 52, 1, 1).unwrap();
    assert_eq!(layout.width, 52);
    assert_eq!(layout.height, 52);
    assert_eq!(layout.tiles, vec![TileRect { min_x: 0, min_y: 0, max_x: 52, max_y: 52 }]);
}

#[test]
fn grid_up_to_the_last_pixel_fits() {
    assert!(check_grid_fits(u32::MAX, 1, 1, 1));
    let layout = AtlasLayout::from_grid(u32::MAX, 1, 1, 1).unwrap();
    assert_eq!(layout.width, u32::MAX);
    assert_eq!(layout.tiles, vec![TileRect { min_x: 0, min_y: 0, max_x: u32::MAX, max_y: 1 }]);
}

#[test]
fn grid_past_the_last_pixel_does_not_fit() {
    assert!(!check_grid_fits(65536, 1, 65536, 1));
    assert!(!check_grid_fits(1, 65536, 1, 65536));
    assert!(AtlasLayout::from_grid(65536, 1, 65536, 1).is_none());
    assert!(AtlasLayout::from_grid(1, 65536, 1, 65536).is_none());
    assert!(check_grid_fits(65535, 1, 65537, 1));
}

#[test]
fn grid_with_more_tiles_than_memory_can_address_does_not_fit() {
    assert!(!check_grid_fits(0, 0, u32::MAX, u32::MAX));
    assert!(AtlasLayout::from_grid(0, 0, u32::MAX, u32::MAX).is_none());
}
