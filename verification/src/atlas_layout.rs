//! The layout of a sprite atlas: an image cut into a grid of tiles.

use vstd::prelude::*;

verus! {

/// The bytes that one tile rectangle takes in a layout's tile list.
pub const TILE_BYTES: usize = 16;

/// One tile of an atlas, in pixels of the source image. `min` is the
/// corner that belongs to the tile, `max` the corner just past it.
#[derive(Clone, Copy, Debug, PartialEq, Eq, Structural)]
pub struct TileRect {
    pub min_x: u32,
    pub min_y: u32,
    pub max_x: u32,
    pub max_y: u32,
}

/// A single image sliced into tiles that are addressed by index.
#[derive(Clone, Debug, PartialEq, Eq)]
pub struct AtlasLayout {
    pub width: u32,
    pub height: u32,
    pub tiles: Vec<TileRect>,
}

/// The mathematical value of an [`AtlasLayout`].
pub struct AtlasLayoutView {
    pub width: int,
    pub height: int,
    pub tiles: Seq<TileRect>,
}

impl View for AtlasLayout {
    type V = AtlasLayoutView;

    open spec fn view(&self) -> AtlasLayoutView {
        AtlasLayoutView {
            width: self.width as int,
            height: self.height as int,
            tiles: self.tiles@,
        }
    }
}

/// Whether a grid of `columns` by `rows` tiles of `tile_width` by
/// `tile_height` pixels can be laid out: every pixel coordinate fits in
/// `u32`, and the tile list, which grows by doubling while it is filled,
/// never asks for more bytes than a vector can hold.
pub open spec fn grid_fits(tile_width: u32, tile_height: u32, columns: u32, rows: u32) -> bool {
    &&& tile_width * columns <= u32::MAX
    &&& tile_height * rows <= u32::MAX
    &&& 2 * TILE_BYTES * (columns * rows) <= isize::MAX
}

/// Tile number `i` of a grid, counted left to right, then top to bottom.
pub open spec fn grid_tile(tile_width: u32, tile_height: u32, columns: u32, i: int) -> TileRect {
    let x = i % (columns as int);
    let y = i / (columns as int);
    TileRect {
        min_x: (x * tile_width) as u32,
        min_y: (y * tile_height) as u32,
        max_x: (x * tile_width + tile_width) as u32,
        max_y: (y * tile_height + tile_height) as u32,
    }
}

/// The layout of a grid without padding or offset: `columns * rows` tiles
/// that cover an image of `tile_width * columns` by `tile_height * rows`
/// pixels.
pub open spec fn grid_layout(
    tile_width: u32,
    tile_height: u32,
    columns: u32,
    rows: u32,
) -> AtlasLayoutView {
    AtlasLayoutView {
        width: tile_width * columns,
        height: tile_height * rows,
        tiles: Seq::new(
            (columns * rows) as nat,
            |i: int| grid_tile(tile_width, tile_height, columns, i),
        ),
    }
}

/// `TextureAtlasLayout::from_grid` of the engine, called without padding
/// and without offset, its result copied field by field. It walks the rows
/// top to bottom and each row left to right, and gives the tile in column
/// `x` and row `y` the corners `(x * w, y * h)` and `(x * w + w, y * h + h)`;
/// the size it reports is `(w * columns, h * rows)`. The `requires` keeps
/// its `u32` arithmetic from overflowing and its tile list within what a
/// vector can hold.
#[verifier::external_body]
fn engine_grid(tile_width: u32, tile_height: u32, columns: u32, rows: u32) -> (layout: AtlasLayout)
    requires
        grid_fits(tile_width, tile_height, columns, rows),
    ensures
        layout@ == grid_layout(tile_width, tile_height, columns, rows),
{
    let size = bevy::math::UVec2::new(tile_width, tile_height);
    let grid = bevy::sprite::TextureAtlasLayout::from_grid(size, columns, rows, None, None);
    AtlasLayout {
        width: grid.size.x,
        height: grid.size.y,
        tiles: grid.textures.iter().map(|r| TileRect {
            min_x: r.min.x, min_y: r.min.y, max_x: r.max.x, max_y: r.max.y,
        }).collect(),
    }
}

/// Decides [`grid_fits`].
pub fn check_grid_fits(tile_width: u32, tile_height: u32, columns: u32, rows: u32) -> (fits: bool)
    ensures
        fits == grid_fits(tile_width, tile_height, columns, rows),
{
    proof {
        lemma_product_fits_u64(tile_width, columns);
        lemma_product_fits_u64(tile_height, rows);
        lemma_product_fits_u64(columns, rows);
    }
    let width: u64 = tile_width as u64 * columns as u64;
    let height: u64 = tile_height as u64 * rows as u64;
    let count: u64 = columns as u64 * rows as u64;
    let most: u64 = (isize::MAX as u64) / (2 * (TILE_BYTES as u64));
    assert(most == isize::MAX / 32);
    assert(count <= most <==> 32 * count <= isize::MAX);
    width <= u32::MAX as u64 && height <= u32::MAX as u64 && count <= most
}

/// The product of two `u32` values fits in `u64`.
proof fn lemma_product_fits_u64(a: u32, b: u32)
    ensures
        a * b <= u64::MAX,
{
    assert(a * b <= 0xFFFF_FFFF * 0xFFFF_FFFF) by (nonlinear_arith)
        requires
            0 <= a <= 0xFFFF_FFFF,
            0 <= b <= 0xFFFF_FFFF,
    ;
}

impl AtlasLayout {
    /// Slices an image into a grid of equally sized tiles, indexed left to
    /// right, then top to bottom. `None` when the grid cannot be laid out.
    pub fn from_grid(tile_width: u32, tile_height: u32, columns: u32, rows: u32) -> (layout:
        Option<AtlasLayout>)
        ensures
            layout is Some <==> grid_fits(tile_width, tile_height, columns, rows),
            layout matches Some(l) ==> l@ == grid_layout(tile_width, tile_height, columns, rows),
    {
        if check_grid_fits(tile_width, tile_height, columns, rows) {
            Some(engine_grid(tile_width, tile_height, columns, rows))
        } else {
            None
        }
    }
}

} // verus!
