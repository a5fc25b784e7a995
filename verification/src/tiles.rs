//! Cutting an image into square blocks and numbering the blocks by content.

use vstd::prelude::*;
use vstd::arithmetic::div_mod::{lemma_fundamental_div_mod, lemma_fundamental_div_mod_converse};
use crate::palette::{distinct_count, distinct_in_order, first_seen_index, is_first_occurrence, Palette};
use crate::palette::{
    lemma_distinct_in_order, lemma_first_seen_ordering, lemma_in_palette, lemma_palette_position,
};
use crate::raster::{Color, Raster, RasterView};

verus! {

/// The side of a tile, in pixels, that the game's backgrounds are drawn with.
pub const TILE_SIZE: u32 = 8;

/// How many whole blocks of side `tile` fit side by side.
pub open spec fn grid_cols(img: RasterView, tile: int) -> int {
    img.width as int / tile
}

/// How many whole blocks of side `tile` fit one below the other.
pub open spec fn grid_rows(img: RasterView, tile: int) -> int {
    img.height as int / tile
}

/// The content of the block in block row `row` and block column `col`: its
/// pixel rows from the top, each from left to right.
pub open spec fn block_at(img: RasterView, row: int, col: int, tile: int) -> Seq<Color> {
    Seq::new(
        (tile * tile) as nat,
        |k: int| img.pixel(col * tile + k % tile, row * tile + k / tile),
    )
}

/// All blocks of the image: block rows from the top, each from left to right.
/// Pixels right of the last whole block column or below the last whole block
/// row belong to no block.
pub open spec fn blocks_of(img: RasterView, tile: int) -> Seq<Seq<Color>> {
    Seq::new(
        (grid_rows(img, tile) * grid_cols(img, tile)) as nat,
        |p: int| block_at(img, p / grid_cols(img, tile), p % grid_cols(img, tile), tile),
    )
}

/// The index of the block in block row `row` and block column `col`.
pub open spec fn tile_index(img: RasterView, tile: int, row: int, col: int) -> nat {
    first_seen_index(blocks_of(img, tile), row * grid_cols(img, tile) + col)
}

/// Whether `grid` is the tile grid of `img`: one row per block row, one entry
/// per block, each the first-seen index of the block's content.
pub open spec fn is_tile_grid(grid: Seq<Vec<usize>>, img: RasterView, tile: int) -> bool {
    &&& grid.len() == grid_rows(img, tile)
    &&& forall|r: int| 0 <= r < grid.len() ==> (#[trigger] grid[r])@.len() == grid_cols(img, tile)
    &&& forall|r: int, c: int|
        0 <= r < grid_rows(img, tile) && 0 <= c < grid_cols(img, tile) ==> #[trigger] grid[r]@[c]
            == tile_index(img, tile, r, c)
}

/// The cell `(r, c)` of a grid with `cols` columns is block number
/// `r * cols + c`, and that number names no other cell.
pub proof fn lemma_cell_number(rows: int, cols: int, r: int, c: int)
    requires
        0 <= r < rows,
        0 <= c < cols,
    ensures
        0 <= r * cols + c < rows * cols,
        (r * cols + c) / cols == r,
        (r * cols + c) % cols == c,
{
    assert(0 <= r * cols && r * cols + cols <= rows * cols) by (nonlinear_arith)
        requires
            0 <= r < rows,
            0 < cols,
    ;
    lemma_fundamental_div_mod_converse(r * cols + c, cols, r, c);
}

/// A block whose number is below `size / tile` lies inside `size` pixels.
proof fn lemma_block_inside(size: int, tile: int, index: int)
    requires
        0 < tile,
        0 <= index < size / tile,
    ensures
        0 <= index * tile,
        index * tile + tile <= size,
{
    assert(0 <= index * tile && index * tile + tile <= (size / tile) * tile) by (nonlinear_arith)
        requires
            0 < tile,
            0 <= index < size / tile,
    ;
    assert((size / tile) * tile <= size) by (nonlinear_arith)
        requires
            0 < tile,
    ;
}

/// Reads the block in block row `row` and block column `col` out of `img`.
pub fn extract_block(img: &Raster, row: u32, col: u32, tile_size: u32) -> (block: Vec<Color>)
    requires
        tile_size > 0,
        row < grid_rows(img@, tile_size as int),
        col < grid_cols(img@, tile_size as int),
    ensures
        block@ == block_at(img@, row as int, col as int, tile_size as int),
{
    proof {
        lemma_block_inside(img@.width as int, tile_size as int, col as int);
        lemma_block_inside(img@.height as int, tile_size as int, row as int);
    }
    let x0: u32 = col * tile_size;
    let y0: u32 = row * tile_size;
    let mut block: Vec<Color> = Vec::new();
    let mut dy: u32 = 0;
    while dy < tile_size
        invariant
            tile_size > 0,
            dy <= tile_size,
            x0 + tile_size <= img@.width,
            y0 + tile_size <= img@.height,
            block@.len() == dy * tile_size,
            forall|k: int|
                0 <= k < block@.len() ==> block@[k] == img@.pixel(
                    x0 + k % (tile_size as int),
                    y0 + k / (tile_size as int),
                ),
        decreases tile_size - dy,
    {
        let mut dx: u32 = 0;
        while dx < tile_size
            invariant
                tile_size > 0,
                dy < tile_size,
                dx <= tile_size,
                x0 + tile_size <= img@.width,
                y0 + tile_size <= img@.height,
                block@.len() == dy * tile_size + dx,
                forall|k: int|
                    0 <= k < block@.len() ==> block@[k] == img@.pixel(
                        x0 + k % (tile_size as int),
                        y0 + k / (tile_size as int),
                    ),
            decreases tile_size - dx,
        {
            let pixel = img.get_pixel(x0 + dx, y0 + dy);
            proof {
                lemma_fundamental_div_mod_converse(
                    dy * tile_size + dx,
                    tile_size as int,
                    dy as int,
                    dx as int,
                );
            }
            block.push(pixel);
            dx += 1;
        }
        assert((dy + 1) * tile_size == dy * tile_size + tile_size) by (nonlinear_arith);
        dy += 1;
    }
    assert(block@ =~= block_at(img@, row as int, col as int, tile_size as int));
    block
}

/// The outcome of numbering an image's blocks: the grid of indices and the
/// palette that the indices point into.
pub struct TileMap {
    pub grid: Vec<Vec<usize>>,
    pub palette: Palette,
}

impl TileMap {
    /// Whether this is the tile map of `img` cut into blocks of side `tile`.
    pub open spec fn describes(&self, img: RasterView, tile: int) -> bool {
        &&& is_tile_grid(self.grid@, img, tile)
        &&& self.palette@ == distinct_in_order(blocks_of(img, tile))
    }
}

/// Numbers the blocks of `img`. Block rows are scanned from the top, each
/// from left to right; a block whose content was not seen before gets the
/// next free index and joins the palette, any other gets the index of the
/// block it repeats.
pub fn deduplicate(img: &Raster, tile_size: u32) -> (map: TileMap)
    requires
        tile_size > 0,
    ensures
        map.describes(img@, tile_size as int),
        map.palette.wf(),
        map.palette@.len() == distinct_count(blocks_of(img@, tile_size as int)),
        map.palette@.len() <= grid_rows(img@, tile_size as int) * grid_cols(
            img@,
            tile_size as int,
        ),
        forall|r: int, c: int|
            0 <= r < grid_rows(img@, tile_size as int) && 0 <= c < grid_cols(
                img@,
                tile_size as int,
            ) ==> {
                &&& (#[trigger] map.grid@[r]@[c]) < map.palette@.len()
                &&& map.palette@[map.grid@[r]@[c] as int] == block_at(
                    img@,
                    r,
                    c,
                    tile_size as int,
                )
            },
{
    let cols: u32 = img.width() / tile_size;
    let rows: u32 = img.height() / tile_size;
    let ghost tile = tile_size as int;
    let ghost blocks = blocks_of(img@, tile);
    let mut palette = Palette::new();
    let mut grid: Vec<Vec<usize>> = Vec::new();
    let mut n: u32 = 0;
    assert(blocks.take(0) =~= Seq::empty());
    while n < rows
        invariant
            tile_size > 0,
            tile == tile_size as int,
            rows == grid_rows(img@, tile),
            cols == grid_cols(img@, tile),
            blocks == blocks_of(img@, tile),
            n <= rows,
            palette.wf(),
            palette@ == distinct_in_order(blocks.take(n * cols)),
            grid@.len() == n,
            forall|r: int| 0 <= r < n ==> (#[trigger] grid@[r])@.len() == cols,
            forall|r: int, c: int|
                0 <= r < n && 0 <= c < cols ==> {
                    &&& (#[trigger] grid@[r]@[c]) < palette@.len()
                    &&& palette@[grid@[r]@[c] as int] == blocks[r * cols + c]
                },
        decreases rows - n,
    {
        let mut row: Vec<usize> = Vec::new();
        let mut m: u32 = 0;
        while m < cols
            invariant
                tile_size > 0,
                tile == tile_size as int,
                rows == grid_rows(img@, tile),
                cols == grid_cols(img@, tile),
                blocks == blocks_of(img@, tile),
                n < rows,
                m <= cols,
                palette.wf(),
                palette@ == distinct_in_order(blocks.take(n * cols + m)),
                grid@.len() == n,
                forall|r: int| 0 <= r < n ==> (#[trigger] grid@[r])@.len() == cols,
                forall|r: int, c: int|
                    0 <= r < n && 0 <= c < cols ==> {
                        &&& (#[trigger] grid@[r]@[c]) < palette@.len()
                        &&& palette@[grid@[r]@[c] as int] == blocks[r * cols + c]
                    },
                row@.len() == m,
                forall|c: int|
                    0 <= c < m ==> {
                        &&& (#[trigger] row@[c]) < palette@.len()
                        &&& palette@[row@[c] as int] == blocks[n * cols + c]
                    },
            decreases cols - m,
        {
            let block = extract_block(img, n, m, tile_size);
            let ghost p = n * cols + m;
            proof {
                lemma_cell_number(rows as int, cols as int, n as int, m as int);
                assert(blocks[p] == block@);
                assert(blocks.take(p + 1).drop_last() =~= blocks.take(p));
            }
            let index = palette.intern(block);
            assert(palette@ == distinct_in_order(blocks.take(p + 1)));
            row.push(index);
            m += 1;
        }
        assert((n + 1) * cols == n * cols + cols) by (nonlinear_arith);
        grid.push(row);
        n += 1;
    }
    proof {
        assert(blocks.take(rows * cols) =~= blocks);
        lemma_distinct_in_order(blocks);
        assert forall|r: int, c: int| 0 <= r < rows && 0 <= c < cols implies #[trigger] grid@[r]@[c]
            == tile_index(img@, tile, r, c) && palette@[grid@[r]@[c] as int] == block_at(
            img@,
            r,
            c,
            tile,
        ) by {
            lemma_cell_number(rows as int, cols as int, r, c);
            lemma_palette_position(blocks, r * cols + c, grid@[r]@[c] as int);
        }
    }
    TileMap { grid, palette }
}

/// The tile grid of `img`: for every block the index of its content, where
/// contents are numbered from zero in the order in which the scan first
/// meets them.
pub fn generate_background_map(img: &Raster, tile_size: u32) -> (grid: Vec<Vec<usize>>)
    requires
        tile_size > 0,
    ensures
        is_tile_grid(grid@, img@, tile_size as int),
        forall|r: int, c: int|
            0 <= r < grid_rows(img@, tile_size as int) && 0 <= c < grid_cols(
                img@,
                tile_size as int,
            ) ==> (#[trigger] grid@[r]@[c]) < distinct_count(blocks_of(img@, tile_size as int)),
        distinct_count(blocks_of(img@, tile_size as int)) <= grid_rows(img@, tile_size as int)
            * grid_cols(img@, tile_size as int),
{
    deduplicate(img, tile_size).grid
}

/// Blocks of equal content have the same index, and blocks of different
/// content have different ones, wherever in the image they lie.
pub proof fn lemma_same_content_same_index(
    img: RasterView,
    tile: int,
    r1: int,
    c1: int,
    r2: int,
    c2: int,
)
    requires
        0 <= r1 < grid_rows(img, tile),
        0 <= c1 < grid_cols(img, tile),
        0 <= r2 < grid_rows(img, tile),
        0 <= c2 < grid_cols(img, tile),
    ensures
        tile_index(img, tile, r1, c1) == tile_index(img, tile, r2, c2) <==> block_at(
            img,
            r1,
            c1,
            tile,
        ) == block_at(img, r2, c2, tile),
{
    let blocks = blocks_of(img, tile);
    let cols = grid_cols(img, tile);
    lemma_cell_number(grid_rows(img, tile), cols, r1, c1);
    lemma_cell_number(grid_rows(img, tile), cols, r2, c2);
    lemma_in_palette(blocks, r1 * cols + c1);
    lemma_in_palette(blocks, r2 * cols + c2);
    lemma_distinct_in_order(blocks);
}

/// The numbering follows the scan. Where the block at scan position `first`
/// is the first of its content and the block at the later position `later`
/// repeats it, both have one index: the number of different contents that the
/// scan met before `first`.
pub proof fn lemma_scan_order_numbering(img: RasterView, tile: int, first: int, later: int)
    requires
        tile > 0,
        0 <= first <= later < blocks_of(img, tile).len(),
        is_first_occurrence(blocks_of(img, tile), first, blocks_of(img, tile)[first]),
        blocks_of(img, tile)[later] == blocks_of(img, tile)[first],
    ensures
        tile_index(img, tile, first / grid_cols(img, tile), first % grid_cols(img, tile))
            == distinct_count(blocks_of(img, tile).take(first)),
        tile_index(img, tile, later / grid_cols(img, tile), later % grid_cols(img, tile))
            == distinct_count(blocks_of(img, tile).take(first)),
{
    let rows = grid_rows(img, tile);
    let cols = grid_cols(img, tile);
    assert(0 <= rows && 0 <= cols) by (nonlinear_arith)
        requires
            rows == img.height as int / tile,
            cols == img.width as int / tile,
            tile > 0,
    ;
    assert(rows * cols >= 0) by (nonlinear_arith)
        requires
            0 <= rows,
            0 <= cols,
    ;
    assert(cols != 0) by (nonlinear_arith)
        requires
            0 < rows * cols,
    ;
    lemma_fundamental_div_mod(first, cols);
    lemma_fundamental_div_mod(later, cols);
    assert((first / cols) * cols == cols * (first / cols)) by (nonlinear_arith);
    assert((later / cols) * cols == cols * (later / cols)) by (nonlinear_arith);
    lemma_first_seen_ordering(blocks_of(img, tile), first, later);
}

/// The grid counts whole blocks only: as many columns and rows as fit, and
/// what is left over on the right and at the bottom is less than one tile.
pub proof fn lemma_whole_blocks_only(img: RasterView, tile: int)
    requires
        tile > 0,
    ensures
        grid_cols(img, tile) * tile <= img.width < grid_cols(img, tile) * tile + tile,
        grid_rows(img, tile) * tile <= img.height < grid_rows(img, tile) * tile + tile,
{
    lemma_fundamental_div_mod(img.width as int, tile);
    lemma_fundamental_div_mod(img.height as int, tile);
    assert(grid_cols(img, tile) * tile == tile * grid_cols(img, tile)) by (nonlinear_arith);
    assert(grid_rows(img, tile) * tile == tile * grid_rows(img, tile)) by (nonlinear_arith);
}

/// An image three tiles and two pixels wide and two tiles and five pixels
/// high has a grid of two rows and three columns, as long as five pixels are
/// less than a tile.
pub proof fn lemma_leftover_pixels_make_no_block(img: RasterView, tile: int)
    requires
        tile > 5,
        img.width == tile * 3 + 2,
        img.height == tile * 2 + 5,
    ensures
        grid_rows(img, tile) == 2,
        grid_cols(img, tile) == 3,
{
    lemma_fundamental_div_mod_converse(img.width as int, tile, 3, 2);
    lemma_fundamental_div_mod_converse(img.height as int, tile, 2, 5);
}

/// The tile map depends on nothing but the pixels inside whole blocks: two
/// images with equally many block rows and columns that agree on every such
/// pixel have the same blocks, and so the same indices and the same palette.
/// What lies right of the last whole block column or below the last whole
/// block row has no influence.
pub proof fn lemma_tiled_area_decides(a: RasterView, b: RasterView, tile: int)
    requires
        tile > 0,
        grid_rows(a, tile) == grid_rows(b, tile),
        grid_cols(a, tile) == grid_cols(b, tile),
        forall|x: int, y: int|
            0 <= x < grid_cols(a, tile) * tile && 0 <= y < grid_rows(a, tile) * tile
                ==> #[trigger] a.pixel(x, y) == b.pixel(x, y),
    ensures
        blocks_of(a, tile) == blocks_of(b, tile),
        distinct_in_order(blocks_of(a, tile)) == distinct_in_order(blocks_of(b, tile)),
        forall|r: int, c: int| tile_index(a, tile, r, c) == tile_index(b, tile, r, c),
{
    let rows = grid_rows(a, tile);
    let cols = grid_cols(a, tile);
    assert forall|p: int| 0 <= p < rows * cols implies #[trigger] blocks_of(a, tile)[p]
        == blocks_of(b, tile)[p] by {
        assert(cols > 0) by (nonlinear_arith)
            requires
                0 <= p < rows * cols,
                0 <= rows,
        ;
        let r = p / cols;
        let c = p % cols;
        lemma_fundamental_div_mod(p, cols);
        assert(0 <= r < rows) by (nonlinear_arith)
            requires
                p == cols * r + c,
                0 <= c < cols,
                0 <= p < rows * cols,
        ;
        assert forall|k: int| 0 <= k < tile * tile implies #[trigger] block_at(a, r, c, tile)[k]
            == block_at(b, r, c, tile)[k] by {
            lemma_fundamental_div_mod(k, tile);
            let dx = k % tile;
            let dy = k / tile;
            assert(0 <= dy < tile) by (nonlinear_arith)
                requires
                    k == tile * dy + dx,
                    0 <= dx < tile,
                    0 <= k < tile * tile,
            ;
            assert(0 <= c * tile + dx < cols * tile) by (nonlinear_arith)
                requires
                    0 <= c < cols,
                    0 <= dx < tile,
            ;
            assert(0 <= r * tile + dy < rows * tile) by (nonlinear_arith)
                requires
                    0 <= r < rows,
                    0 <= dy < tile,
            ;
            assert(a.pixel(c * tile + dx, r * tile + dy) == b.pixel(c * tile + dx, r * tile + dy));
        }
        assert(block_at(a, r, c, tile) =~= block_at(b, r, c, tile));
    }
    assert(blocks_of(a, tile) =~= blocks_of(b, tile));
}

/// Numbering an image again gives the same result: two tile maps of one
/// image, cut with one tile size, have the same grid and the same palette.
pub proof fn lemma_tile_map_unique(first: TileMap, second: TileMap, img: RasterView, tile: int)
    requires
        first.describes(img, tile),
        second.describes(img, tile),
    ensures
        first.grid.deep_view() == second.grid.deep_view(),
        first.palette@ == second.palette@,
{
    assert forall|r: int| 0 <= r < first.grid@.len() implies #[trigger] first.grid@[r].deep_view()
        == second.grid@[r].deep_view() by {
        assert(first.grid@[r]@.len() == second.grid@[r]@.len());
        assert forall|c: int| 0 <= c < first.grid@[r]@.len() implies first.grid@[r]@[c]
            == second.grid@[r]@[c] by {
            assert(first.grid@[r]@[c] == tile_index(img, tile, r, c));
            assert(second.grid@[r]@[c] == tile_index(img, tile, r, c));
        }
        assert(first.grid@[r].deep_view() =~= second.grid@[r].deep_view());
    }
    assert(first.grid.deep_view() =~= second.grid.deep_view());
}

} // verus!
