//! Collision rules of the scrolling level: which tiles of the map a step of
//! the scroll position would run into.

use vstd::prelude::*;
use crate::motion::Tri;

verus! {

/// The screen position of the player's sprite, in pixels from the left.
pub const START_X: i16 = 104;

/// The screen position of the player's sprite, in pixels from the top.
pub const START_Y: i16 = 64;

/// The tile index of ground that can be walked on.
pub const WALKABLE_TILE: usize = 5;

/// The tile index of a wall of the wide level.
pub const WALL_TILE: usize = 1;

/// The tile that a pixel offset falls into, counted from the map's origin
/// and rounded towards it.
pub open spec fn tile_of(offset: int) -> int {
    if offset >= 0 {
        offset / 8
    } else {
        -((-offset) / 8)
    }
}

/// Whether the three cells from `row` down in column `col` can be read one
/// after the other, stopping at the first that is not walkable.
pub open spec fn column_readable(tilemap: [[usize; 32]; 32], col: int, row: int) -> bool {
    &&& 0 <= col < 32
    &&& 0 <= row < 32
    &&& tilemap[row][col] == WALKABLE_TILE ==> {
        &&& row + 1 < 32
        &&& tilemap[row + 1][col] == WALKABLE_TILE ==> row + 2 < 32
    }
}

/// Whether one of the three cells from `row` down in column `col` is not
/// walkable.
pub open spec fn column_blocked(tilemap: [[usize; 32]; 32], col: int, row: int) -> bool {
    ||| tilemap[row][col] != WALKABLE_TILE
    ||| tilemap[row + 1][col] != WALKABLE_TILE
    ||| tilemap[row + 2][col] != WALKABLE_TILE
}

/// Whether the three cells from `col` rightwards in row `row` can be read one
/// after the other, stopping at the first that is not walkable.
pub open spec fn row_readable(tilemap: [[usize; 32]; 32], row: int, col: int) -> bool {
    &&& 0 <= row < 32
    &&& 0 <= col < 32
    &&& tilemap[row][col] == WALKABLE_TILE ==> {
        &&& col + 1 < 32
        &&& tilemap[row][col + 1] == WALKABLE_TILE ==> col + 2 < 32
    }
}

/// Whether one of the three cells from `col` rightwards in row `row` is not
/// walkable.
pub open spec fn row_blocked(tilemap: [[usize; 32]; 32], row: int, col: int) -> bool {
    ||| tilemap[row][col] != WALKABLE_TILE
    ||| tilemap[row][col + 1] != WALKABLE_TILE
    ||| tilemap[row][col + 2] != WALKABLE_TILE
}

/// The sprite's horizontal pixel offset in the map at scroll position `x`.
pub open spec fn offset_x(scroll_x: i16) -> int {
    START_X + scroll_x
}

/// The sprite's vertical pixel offset in the map at scroll position `y`.
pub open spec fn offset_y(scroll_y: i16) -> int {
    START_Y + scroll_y
}

/// The inputs on which a sideways probe reads only cells of the map: the
/// horizontal offset fits, and where it lies on a tile boundary the vertical
/// offset fits too and the probed column can be read.
pub open spec fn sideways_probe_defined(
    scroll: (i16, i16),
    tilemap: [[usize; 32]; 32],
    ahead: int,
) -> bool {
    &&& offset_x(scroll.0) <= i16::MAX
    &&& offset_x(scroll.0) % 8 == 0 ==> {
        &&& offset_y(scroll.1) <= i16::MAX
        &&& column_readable(
            tilemap,
            offset_x(scroll.0) / 8 + ahead,
            tile_of(offset_y(scroll.1)) + 1,
        )
    }
}

/// What a sideways probe answers: the sprite stands on a tile boundary and
/// the column `ahead` tiles further holds an obstacle beside it.
pub open spec fn sideways_blocked(scroll: (i16, i16), tilemap: [[usize; 32]; 32], ahead: int) -> bool {
    &&& offset_x(scroll.0) % 8 == 0
    &&& column_blocked(tilemap, offset_x(scroll.0) / 8 + ahead, tile_of(offset_y(scroll.1)) + 1)
}

/// The inputs on which an upright probe reads only cells of the map: the
/// vertical offset fits, and where it lies on a tile boundary the horizontal
/// offset fits too and the probed row can be read.
pub open spec fn upright_probe_defined(
    scroll: (i16, i16),
    tilemap: [[usize; 32]; 32],
    ahead: int,
) -> bool {
    &&& offset_y(scroll.1) <= i16::MAX
    &&& offset_y(scroll.1) % 8 == 0 ==> {
        &&& offset_x(scroll.0) <= i16::MAX
        &&& row_readable(
            tilemap,
            offset_y(scroll.1) / 8 + ahead,
            tile_of(offset_x(scroll.0)) + 1,
        )
    }
}

/// What an upright probe answers: the sprite stands on a tile boundary and
/// the row `ahead` tiles further holds an obstacle above or below it.
pub open spec fn upright_blocked(scroll: (i16, i16), tilemap: [[usize; 32]; 32], ahead: int) -> bool {
    &&& offset_y(scroll.1) % 8 == 0
    &&& row_blocked(tilemap, offset_y(scroll.1) / 8 + ahead, tile_of(offset_x(scroll.0)) + 1)
}

/// Tests whether a column probe from `row` down in column `col` stays
/// inside the map.
fn column_in_map(tilemap: &[[usize; 32]; 32], col: i32, row: i32) -> (inside: bool)
    ensures
        inside == column_readable(*tilemap, col as int, row as int),
{
    if col < 0 || col >= 32 || row < 0 || row >= 32 {
        return false;
    }
    if tilemap[row as usize][col as usize] != WALKABLE_TILE {
        return true;
    }
    if row + 1 >= 32 {
        return false;
    }
    if tilemap[(row + 1) as usize][col as usize] != WALKABLE_TILE {
        return true;
    }
    row + 2 < 32
}

/// Tests whether a row probe from `col` rightwards in row `row` stays inside
/// the map.
fn row_in_map(tilemap: &[[usize; 32]; 32], row: i32, col: i32) -> (inside: bool)
    ensures
        inside == row_readable(*tilemap, row as int, col as int),
{
    if row < 0 || row >= 32 || col < 0 || col >= 32 {
        return false;
    }
    if tilemap[row as usize][col as usize] != WALKABLE_TILE {
        return true;
    }
    if col + 1 >= 32 {
        return false;
    }
    if tilemap[row as usize][(col + 1) as usize] != WALKABLE_TILE {
        return true;
    }
    col + 2 < 32
}

/// Tests whether a sideways probe `ahead` tiles further can be asked about
/// `scroll`: `path_right_blocked` probes three tiles ahead,
/// `path_left_blocked` none.
pub fn sideways_probe_in_map(scroll: (i16, i16), tilemap: &[[usize; 32]; 32], ahead: i16) -> (inside:
    bool)
    ensures
        inside == sideways_probe_defined(scroll, *tilemap, ahead as int),
{
    if scroll.0 > i16::MAX - START_X {
        return false;
    }
    let cur_offset_x: i16 = START_X + scroll.0;
    if cur_offset_x % 8 != 0 {
        return true;
    }
    if scroll.1 > i16::MAX - START_Y {
        return false;
    }
    let cur_offset_y: i16 = START_Y + scroll.1;
    column_in_map(tilemap, (cur_offset_x / 8) as i32 + ahead as i32, (cur_offset_y / 8) as i32 + 1)
}

/// Tests whether an upright probe `ahead` tiles further can be asked about
/// `scroll`: `path_down_blocked` probes three tiles ahead, `path_up_blocked`
/// none.
pub fn upright_probe_in_map(scroll: (i16, i16), tilemap: &[[usize; 32]; 32], ahead: i16) -> (inside:
    bool)
    ensures
        inside == upright_probe_defined(scroll, *tilemap, ahead as int),
{
    if scroll.1 > i16::MAX - START_Y {
        return false;
    }
    let cur_offset_y: i16 = START_Y + scroll.1;
    if cur_offset_y % 8 != 0 {
        return true;
    }
    if scroll.0 > i16::MAX - START_X {
        return false;
    }
    let cur_offset_x: i16 = START_X + scroll.0;
    row_in_map(tilemap, (cur_offset_y / 8) as i32 + ahead as i32, (cur_offset_x / 8) as i32 + 1)
}

/// Reads down a column until a cell is not walkable.
fn probe_column(tilemap: &[[usize; 32]; 32], col: i16, row: i16) -> (blocked: bool)
    requires
        column_readable(*tilemap, col as int, row as int),
    ensures
        blocked == column_blocked(*tilemap, col as int, row as int),
{
    tilemap[row as usize][col as usize] != WALKABLE_TILE || tilemap[(row + 1) as usize][col
        as usize] != WALKABLE_TILE || tilemap[(row + 2) as usize][col as usize] != WALKABLE_TILE
}

/// Reads along a row until a cell is not walkable.
fn probe_row(tilemap: &[[usize; 32]; 32], row: i16, col: i16) -> (blocked: bool)
    requires
        row_readable(*tilemap, row as int, col as int),
    ensures
        blocked == row_blocked(*tilemap, row as int, col as int),
{
    tilemap[row as usize][col as usize] != WALKABLE_TILE || tilemap[row as usize][(col + 1)
        as usize] != WALKABLE_TILE || tilemap[row as usize][(col + 2) as usize] != WALKABLE_TILE
}

/// Whether scrolling to `scroll` runs the sprite's right edge into an
/// obstacle. Between tile boundaries nothing blocks.
pub fn path_right_blocked(scroll: (i16, i16), tilemap: [[usize; 32]; 32]) -> (blocked: bool)
    requires
        sideways_probe_defined(scroll, tilemap, 3),
    ensures
        blocked == sideways_blocked(scroll, tilemap, 3),
{
    let cur_offset_x: i16 = START_X + scroll.0;
    if cur_offset_x % 8 != 0 {
        return false;
    }
    let next_tile: i16 = cur_offset_x / 8 + 3;
    let cur_tile_y: i16 = (START_Y + scroll.1) / 8;
    probe_column(&tilemap, next_tile, cur_tile_y + 1)
}

/// Whether scrolling to `scroll` runs the sprite's left edge into an
/// obstacle. Between tile boundaries nothing blocks.
pub fn path_left_blocked(scroll: (i16, i16), tilemap: [[usize; 32]; 32]) -> (blocked: bool)
    requires
        sideways_probe_defined(scroll, tilemap, 0),
    ensures
        blocked == sideways_blocked(scroll, tilemap, 0),
{
    let cur_offset_x: i16 = START_X + scroll.0;
    if cur_offset_x % 8 != 0 {
        return false;
    }
    let last_tile: i16 = cur_offset_x / 8;
    let cur_tile_y: i16 = (START_Y + scroll.1) / 8;
    probe_column(&tilemap, last_tile, cur_tile_y + 1)
}

/// Whether scrolling to `scroll` runs the sprite's upper edge into an
/// obstacle. Between tile boundaries nothing blocks.
pub fn path_up_blocked(scroll: (i16, i16), tilemap: [[usize; 32]; 32]) -> (blocked: bool)
    requires
        upright_probe_defined(scroll, tilemap, 0),
    ensures
        blocked == upright_blocked(scroll, tilemap, 0),
{
    let cur_offset_y: i16 = START_Y + scroll.1;
    if cur_offset_y % 8 != 0 {
        return false;
    }
    let last_tile: i16 = cur_offset_y / 8;
    let cur_tile_x: i16 = (START_X + scroll.0) / 8;
    probe_row(&tilemap, last_tile, cur_tile_x + 1)
}

/// Whether scrolling to `scroll` runs the sprite's lower edge into an
/// obstacle. Between tile boundaries nothing blocks.
pub fn path_down_blocked(scroll: (i16, i16), tilemap: [[usize; 32]; 32]) -> (blocked: bool)
    requires
        upright_probe_defined(scroll, tilemap, 3),
    ensures
        blocked == upright_blocked(scroll, tilemap, 3),
{
    let cur_offset_y: i16 = START_Y + scroll.1;
    if cur_offset_y % 8 != 0 {
        return false;
    }
    let next_tile: i16 = cur_offset_y / 8 + 3;
    let cur_tile_x: i16 = (START_X + scroll.0) / 8;
    probe_row(&tilemap, next_tile, cur_tile_x + 1)
}

/// Whether the four cells that `check_boundary` reads lie inside the level:
/// three in the column fifteen tiles right of the scroll position, eight,
/// ten and twelve tiles below it, and one left of the middle one.
pub open spec fn boundary_readable(scroll: (i16, i16)) -> bool {
    &&& 0 <= 8 + tile_of(scroll.1 as int)
    &&& 12 + tile_of(scroll.1 as int) < 32
    &&& 0 <= 14 + tile_of(scroll.0 as int)
    &&& 15 + tile_of(scroll.0 as int) < 64
}

/// Tests whether `check_boundary` can be asked about `scroll`.
pub fn boundary_in_level(scroll: (i16, i16)) -> (inside: bool)
    ensures
        inside == boundary_readable(scroll),
{
    let x_offset: i16 = scroll.0 / 8;
    let y_offset: i16 = scroll.1 / 8;
    -8 <= y_offset && y_offset < 20 && -14 <= x_offset && x_offset < 49
}

/// Whether one of the four cells around the sprite is a wall.
pub open spec fn at_boundary(scroll: (i16, i16), level: [[usize; 64]; 32]) -> bool {
    let x = tile_of(scroll.0 as int);
    let y = tile_of(scroll.1 as int);
    ||| level[10 + y][15 + x] == WALL_TILE
    ||| level[10 + y][14 + x] == WALL_TILE
    ||| level[12 + y][15 + x] == WALL_TILE
    ||| level[8 + y][15 + x] == WALL_TILE
}

/// Whether the scroll position `scroll` puts the sprite next to a wall of the
/// wide level.
pub fn check_boundary(scroll: (i16, i16), level: [[usize; 64]; 32]) -> (blocked: bool)
    requires
        boundary_readable(scroll),
    ensures
        blocked == at_boundary(scroll, level),
{
    let x_offset: i16 = scroll.0 / 8;
    let y_offset: i16 = scroll.1 / 8;
    let right: usize = level[(10 + y_offset) as usize][(15 + x_offset) as usize];
    let left: usize = level[(10 + y_offset) as usize][(14 + x_offset) as usize];
    let top: usize = level[(12 + y_offset) as usize][(15 + x_offset) as usize];
    let bottom: usize = level[(8 + y_offset) as usize][(15 + x_offset) as usize];
    right == WALL_TILE || left == WALL_TILE || top == WALL_TILE || bottom == WALL_TILE
}

/// The scroll position `dx` pixels further right and `dy` pixels further
/// down.
pub open spec fn moved(scroll: (i16, i16), dx: int, dy: int) -> (i16, i16) {
    ((scroll.0 + dx) as i16, (scroll.1 + dy) as i16)
}

/// Whether a sideways step can be decided: the scroll position one pixel
/// along the pressed direction exists and can be probed.
pub open spec fn sideways_step_defined(
    scroll: (i16, i16),
    x: Tri,
    tilemap: [[usize; 32]; 32],
) -> bool {
    match x {
        Tri::Positive => scroll.0 < i16::MAX && sideways_probe_defined(
            moved(scroll, 1, 0),
            tilemap,
            3,
        ),
        Tri::Negative => scroll.0 > i16::MIN && sideways_probe_defined(
            moved(scroll, -1, 0),
            tilemap,
            0,
        ),
        Tri::Zero => true,
    }
}

/// The scroll position after the horizontal axis was read: one pixel along
/// the pressed direction unless an obstacle blocks there.
pub open spec fn spec_scroll_sideways(
    scroll: (i16, i16),
    x: Tri,
    tilemap: [[usize; 32]; 32],
) -> (i16, i16) {
    match x {
        Tri::Positive => if sideways_blocked(moved(scroll, 1, 0), tilemap, 3) {
            scroll
        } else {
            moved(scroll, 1, 0)
        },
        Tri::Negative => if sideways_blocked(moved(scroll, -1, 0), tilemap, 0) {
            scroll
        } else {
            moved(scroll, -1, 0)
        },
        Tri::Zero => scroll,
    }
}

/// Whether an upright step can be decided: the scroll position one pixel
/// along the pressed direction exists and can be probed.
pub open spec fn upright_step_defined(
    scroll: (i16, i16),
    y: Tri,
    tilemap: [[usize; 32]; 32],
) -> bool {
    match y {
        Tri::Positive => scroll.1 < i16::MAX && upright_probe_defined(
            moved(scroll, 0, 1),
            tilemap,
            3,
        ),
        Tri::Negative => scroll.1 > i16::MIN && upright_probe_defined(
            moved(scroll, 0, -1),
            tilemap,
            0,
        ),
        Tri::Zero => true,
    }
}

/// The scroll position after the vertical axis was read: one pixel along the
/// pressed direction unless an obstacle blocks there.
pub open spec fn spec_scroll_upright(
    scroll: (i16, i16),
    y: Tri,
    tilemap: [[usize; 32]; 32],
) -> (i16, i16) {
    match y {
        Tri::Positive => if upright_blocked(moved(scroll, 0, 1), tilemap, 3) {
            scroll
        } else {
            moved(scroll, 0, 1)
        },
        Tri::Negative => if upright_blocked(moved(scroll, 0, -1), tilemap, 0) {
            scroll
        } else {
            moved(scroll, 0, -1)
        },
        Tri::Zero => scroll,
    }
}

/// Scrolls the square level by one frame: first along the horizontal axis,
/// then, from where that led, along the vertical one. Returns `None` where a
/// step cannot be decided, because the position it would try does not exist
/// or its probe leaves the map.
pub fn scroll_step(scroll: (i16, i16), x: Tri, y: Tri, tilemap: [[usize; 32]; 32]) -> (next:
    Option<(i16, i16)>)
    ensures
        next.is_some() <==> sideways_step_defined(scroll, x, tilemap) && upright_step_defined(
            spec_scroll_sideways(scroll, x, tilemap),
            y,
            tilemap,
        ),
        next matches Some(position) ==> position == spec_scroll_upright(
            spec_scroll_sideways(scroll, x, tilemap),
            y,
            tilemap,
        ),
{
    let mut scroll_x: i16 = scroll.0;
    let mut scroll_y: i16 = scroll.1;
    match x {
        Tri::Positive => {
            if scroll_x == i16::MAX || !sideways_probe_in_map(
                (scroll_x + 1, scroll_y),
                &tilemap,
                3,
            ) {
                return None;
            }
            if !path_right_blocked((scroll_x + 1, scroll_y), tilemap) {
                scroll_x += 1;
            }
        },
        Tri::Negative => {
            if scroll_x == i16::MIN || !sideways_probe_in_map(
                (scroll_x - 1, scroll_y),
                &tilemap,
                0,
            ) {
                return None;
            }
            if !path_left_blocked((scroll_x - 1, scroll_y), tilemap) {
                scroll_x -= 1;
            }
        },
        Tri::Zero => {},
    }
    match y {
        Tri::Positive => {
            if scroll_y == i16::MAX || !upright_probe_in_map(
                (scroll_x, scroll_y + 1),
                &tilemap,
                3,
            ) {
                return None;
            }
            if !path_down_blocked((scroll_x, scroll_y + 1), tilemap) {
                scroll_y += 1;
            }
        },
        Tri::Negative => {
            if scroll_y == i16::MIN || !upright_probe_in_map(
                (scroll_x, scroll_y - 1),
                &tilemap,
                0,
            ) {
                return None;
            }
            if !path_up_blocked((scroll_x, scroll_y - 1), tilemap) {
                scroll_y -= 1;
            }
        },
        Tri::Zero => {},
    }
    Some((scroll_x, scroll_y))
}

/// Whether a step of the wide level can be decided: the scroll position one
/// pixel along each pressed axis exists and its surroundings lie inside the
/// level.
pub open spec fn bounded_scroll_defined(scroll: (i16, i16), x: Tri, y: Tri) -> bool {
    &&& i16::MIN <= scroll.0 + x.signum() <= i16::MAX
    &&& i16::MIN <= scroll.1 + y.signum() <= i16::MAX
    &&& boundary_readable(moved(scroll, x.signum(), y.signum()))
}

/// Scrolls the wide level by one frame: one pixel along each pressed axis,
/// both at once, unless that puts the sprite next to a wall. Returns `None`
/// where the step cannot be decided.
pub fn bounded_scroll(scroll: (i16, i16), x: Tri, y: Tri, level: [[usize; 64]; 32]) -> (next:
    Option<(i16, i16)>)
    ensures
        next.is_some() <==> bounded_scroll_defined(scroll, x, y),
        next matches Some(position) ==> position == if at_boundary(
            moved(scroll, x.signum(), y.signum()),
            level,
        ) {
            scroll
        } else {
            moved(scroll, x.signum(), y.signum())
        },
{
    let dx: i16 = x.value();
    let dy: i16 = y.value();
    if (dx > 0 && scroll.0 == i16::MAX) || (dx < 0 && scroll.0 == i16::MIN) {
        return None;
    }
    if (dy > 0 && scroll.1 == i16::MAX) || (dy < 0 && scroll.1 == i16::MIN) {
        return None;
    }
    let new_scroll_pos: (i16, i16) = (scroll.0 + dx, scroll.1 + dy);
    if !boundary_in_level(new_scroll_pos) {
        return None;
    }
    if check_boundary(new_scroll_pos, level) {
        Some(scroll)
    } else {
        Some(new_scroll_pos)
    }
}

} // verus!
