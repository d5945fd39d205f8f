use vstd::prelude::*;

use vstd::arithmetic::div_mod::{lemma_fundamental_div_mod, lemma_fundamental_div_mod_converse_div};

use crate::grid::{rows_of, wall_at, wall_at_cell};

verus! {

/// Positions are fixed-point: this many units make one pixel.
pub const SUBPIXELS: i64 = 1000;

/// Side of a square tile, in pixels.
pub const TILE_SIZE: i64 = 8;

/// Rows of tiles reserved above the maze for the score display.
pub const MAZE_OFFSET_ROWS: i64 = 5;

/// Vertical offset of the maze on screen, in pixels.
pub const MAZE_OFFSET_Y: i64 = TILE_SIZE * MAZE_OFFSET_ROWS;

/// Side of a tile in position units.
pub const TILE_UNITS: i64 = TILE_SIZE * SUBPIXELS;

/// The column of the tile under horizontal position `x` (in units): `floor(x / TILE_UNITS)`.
pub open spec fn tile_col(x: int) -> int {
    x / (TILE_UNITS as int)
}

/// The row of the tile under vertical position `y` (in units):
/// `floor((y - MAZE_OFFSET_Y) / TILE_SIZE)` in pixels.
pub open spec fn tile_row(y: int) -> int {
    (y - MAZE_OFFSET_Y * SUBPIXELS) / (TILE_UNITS as int)
}

/// A point is walkable when the tile under it is not a wall.
pub open spec fn point_walkable(map: Seq<Seq<u8>>, x: int, y: int) -> bool {
    !wall_at(map, tile_col(x), tile_row(y))
}

/// `floor(a / TILE_UNITS)`, without overflow for any `a`.
fn floor_div_tile(a: i64) -> (q: i64)
    ensures
        q as int == a as int / (TILE_UNITS as int),
{
    let ghost d: int = TILE_UNITS as int;
    if a >= 0 {
        let q = a / TILE_UNITS;
        proof {
            lemma_fundamental_div_mod(a as int, d);
            lemma_fundamental_div_mod_converse_div(a as int, d, q as int, a as int - q * d);
        }
        q
    } else {
        let b: i64 = -(a + 1);
        let qb = b / TILE_UNITS;
        proof {
            lemma_fundamental_div_mod(b as int, d);
            let rb = b as int - qb * d;
            lemma_fundamental_div_mod_converse_div(b as int, d, qb as int, rb);
            lemma_fundamental_div_mod_converse_div(a as int, d, -qb - 1, d - rb - 1);
        }
        -qb - 1
    }
}

/// The tile `(column, row)` under the point `(x, y)`, given in position units.
pub fn pixel_to_tile(x: i64, y: i64) -> (t: (i64, i64))
    ensures
        t.0 as int == tile_col(x as int),
        t.1 as int == tile_row(y as int),
{
    let col = floor_div_tile(x);
    let r = floor_div_tile(y);
    proof {
        let d: int = TILE_UNITS as int;
        lemma_fundamental_div_mod(y as int, d);
        lemma_fundamental_div_mod_converse_div(
            y - MAZE_OFFSET_Y * SUBPIXELS,
            d,
            r - MAZE_OFFSET_ROWS,
            y as int - r * d,
        );
    }
    (col, r - MAZE_OFFSET_ROWS)
}

/// Whether the point `(pixel_x, pixel_y)`, in position units, lies on a tile that is not a wall.
pub fn is_tile_walkable(pixel_x: i64, pixel_y: i64, map: &Vec<Vec<u8>>) -> (r: bool)
    ensures
        r == point_walkable(rows_of(map), pixel_x as int, pixel_y as int),
{
    let (col, row) = pixel_to_tile(pixel_x, pixel_y);
    !wall_at_cell(col, row, map)
}

/// An axis-aligned rectangle in position units: left edge `x`, top edge `y`, width `w`
/// and height `h`.
#[derive(PartialEq, Eq, Structural, Clone, Copy, Debug)]
pub struct Rect {
    pub x: i64,
    pub y: i64,
    pub w: i64,
    pub h: i64,
}

impl Rect {
    pub fn new(x: i64, y: i64, w: i64, h: i64) -> (r: Rect)
        ensures
            r == (Rect { x, y, w, h }),
    {
        Rect { x, y, w, h }
    }
}

/// The four corners of the rectangle at `(left, top)` of size `w` by `h` are walkable. The
/// right and bottom corners are taken one pixel inside the rectangle, so that a box whose
/// edge lies exactly on a tile boundary does not touch the next tile.
pub open spec fn corners_walkable(map: Seq<Seq<u8>>, left: int, top: int, w: int, h: int) -> bool {
    let right = left + w - SUBPIXELS;
    let bottom = top + h - SUBPIXELS;
    &&& point_walkable(map, left, top)
    &&& point_walkable(map, right, top)
    &&& point_walkable(map, left, bottom)
    &&& point_walkable(map, right, bottom)
}

/// The rectangle may be occupied: none of its four (inset) corners is on a wall.
pub open spec fn rect_walkable(map: Seq<Seq<u8>>, rect: Rect) -> bool {
    corners_walkable(map, rect.x as int, rect.y as int, rect.w as int, rect.h as int)
}

/// Whether a rectangle may be occupied: false as soon as one of its corners (left, top),
/// (right - 1, top), (left, bottom - 1), (right - 1, bottom - 1), with 1 meaning one pixel,
/// lies on a wall tile, true otherwise.
pub fn is_rect_walkable(rect: Rect, level_map: &Vec<Vec<u8>>) -> (r: bool)
    requires
        i64::MIN + SUBPIXELS <= rect.x + rect.w <= i64::MAX,
        i64::MIN + SUBPIXELS <= rect.y + rect.h <= i64::MAX,
    ensures
        r == rect_walkable(rows_of(level_map), rect),
{
    let right_edge = rect.x + rect.w - SUBPIXELS;
    let bottom_edge = rect.y + rect.h - SUBPIXELS;
    if !is_tile_walkable(rect.x, rect.y, level_map) {
        return false;
    }
    if !is_tile_walkable(right_edge, rect.y, level_map) {
        return false;
    }
    if !is_tile_walkable(rect.x, bottom_edge, level_map) {
        return false;
    }
    if !is_tile_walkable(right_edge, bottom_edge, level_map) {
        return false;
    }
    true
}

/// The corner rule: a rectangle whose far edges fit an `i64` passes `is_rect_walkable`
/// exactly when each of its corners (left, top), (right - 1, top), (left, bottom - 1) and
/// (right - 1, bottom - 1), with 1 meaning one pixel, passes `is_tile_walkable`; a single
/// corner on a wall tile, or off the map, makes it fail.
pub proof fn lemma_rect_walkable_corners(map: Seq<Seq<u8>>, rect: Rect)
    requires
        i64::MIN + SUBPIXELS <= rect.x + rect.w <= i64::MAX,
        i64::MIN + SUBPIXELS <= rect.y + rect.h <= i64::MAX,
    ensures
        ({
            let right = (rect.x + rect.w - SUBPIXELS) as i64;
            let bottom = (rect.y + rect.h - SUBPIXELS) as i64;
            rect_walkable(map, rect) <==> {
                &&& point_walkable(map, rect.x as int, rect.y as int)
                &&& point_walkable(map, right as int, rect.y as int)
                &&& point_walkable(map, rect.x as int, bottom as int)
                &&& point_walkable(map, right as int, bottom as int)
            }
        }),
        !rect_walkable(map, rect) <==> (
            wall_at(map, tile_col(rect.x as int), tile_row(rect.y as int))
            || wall_at(map, tile_col(rect.x + rect.w - SUBPIXELS), tile_row(rect.y as int))
            || wall_at(map, tile_col(rect.x as int), tile_row(rect.y + rect.h - SUBPIXELS))
            || wall_at(map, tile_col(rect.x + rect.w - SUBPIXELS), tile_row(rect.y + rect.h - SUBPIXELS))
        ),
{
}

} // verus!
