use vstd::prelude::*;

use vstd::arithmetic::div_mod::lemma_fundamental_div_mod;

use crate::collision::{
    corners_walkable, is_rect_walkable, point_walkable, tile_col, tile_row, Rect, MAZE_OFFSET_Y,
    SUBPIXELS, TILE_UNITS,
};
use crate::grid::{in_bounds, rows_of};

verus! {

/// Player speed, in pixels per second.
pub const PLAYER_SPEED: i64 = 40;

/// Microseconds in one second.
pub const MICROS_PER_SECOND: i64 = 1_000_000;

/// Half the side of a tile in position units: the player's box extends this far on each
/// side of its centre.
pub const HALF_TILE_UNITS: i64 = 4000;

/// Largest number of rows, and of columns, of a map that movement supports. A box may only
/// stand on the map, so on such a map every position the player reaches stays within
/// `POSITION_LIMIT`, and every move tried from it fits an `i64`.
pub const MAX_GRID_TILES: usize = 16_777_216;

/// Largest distance of a position from the origin along either axis, in units.
pub const POSITION_LIMIT: i64 = 1_099_511_627_776;

/// A direction of motion, or no motion at all.
#[derive(PartialEq, Eq, Structural, Clone, Copy, Debug)]
pub enum Direction {
    North,
    East,
    South,
    West,
    Stopped,
}

impl Direction {
    /// Index of the player's animation frame for this direction; a stopped player faces south.
    pub fn sprite_frame(self) -> (r: usize)
        ensures
            r == match self {
                Direction::North => 0usize,
                Direction::East => 1usize,
                Direction::South => 2usize,
                Direction::West => 3usize,
                Direction::Stopped => 2usize,
            },
    {
        match self {
            Direction::North => 0,
            Direction::East => 1,
            Direction::South => 2,
            Direction::West => 3,
            Direction::Stopped => 2,
        }
    }
}

/// The map is small enough for every position on it to stay within `POSITION_LIMIT`.
pub open spec fn grid_within_limits(map: Seq<Seq<u8>>) -> bool {
    &&& map.len() <= MAX_GRID_TILES
    &&& forall|i: int| 0 <= i < map.len() ==> #[trigger] map[i].len() <= MAX_GRID_TILES
}

/// Whether `map` is small enough for movement on it.
pub fn fits_movement_limits(map: &Vec<Vec<u8>>) -> (r: bool)
    ensures
        r == grid_within_limits(rows_of(map)),
{
    if map.len() > MAX_GRID_TILES {
        return false;
    }
    let mut i: usize = 0;
    while i < map.len()
        invariant
            i <= map@.len(),
            map@.len() <= MAX_GRID_TILES,
            forall|j: int| 0 <= j < i ==> #[trigger] rows_of(map)[j].len() <= MAX_GRID_TILES,
        decreases map@.len() - i,
    {
        if map[i].len() > MAX_GRID_TILES {
            assert(rows_of(map)[i as int].len() > MAX_GRID_TILES);
            return false;
        }
        i = i + 1;
    }
    true
}

/// Distance covered in `dt_us` microseconds at `PLAYER_SPEED`, in position units, rounded down.
pub open spec fn step_distance(dt_us: u32) -> int {
    (dt_us * PLAYER_SPEED * SUBPIXELS) / (MICROS_PER_SECOND as int)
}

/// The point `(x, y)` moved `dist` units in direction `d`.
pub open spec fn moved(x: int, y: int, d: Direction, dist: int) -> (int, int) {
    match d {
        Direction::North => (x, y - dist),
        Direction::South => (x, y + dist),
        Direction::West => (x - dist, y),
        Direction::East => (x + dist, y),
        Direction::Stopped => (x, y),
    }
}

/// The one-tile box centred on `(x, y)` may be occupied.
pub open spec fn box_walkable(map: Seq<Seq<u8>>, x: int, y: int) -> bool {
    corners_walkable(map, x - HALF_TILE_UNITS, y - HALF_TILE_UNITS, TILE_UNITS as int, TILE_UNITS as int)
}

/// The player: the centre of its one-tile box, in position units, the direction it
/// moves in and the direction last asked for.
#[derive(PartialEq, Eq, Structural, Clone, Copy, Debug)]
pub struct Player {
    pub x: i64,
    pub y: i64,
    pub direction: Direction,
    pub desired_direction: Direction,
}

/// The player after one tick in which it may cover `dist` units: a desired direction other
/// than `Stopped` is taken as soon as a move in it is free; then the player moves in its
/// direction if that move is free, and stops where it is otherwise.
pub open spec fn next_player(p: Player, map: Seq<Seq<u8>>, dist: int) -> Player {
    let wanted = moved(p.x as int, p.y as int, p.desired_direction, dist);
    let dir = if p.desired_direction != Direction::Stopped && box_walkable(map, wanted.0, wanted.1) {
        p.desired_direction
    } else {
        p.direction
    };
    let next = moved(p.x as int, p.y as int, dir, dist);
    if box_walkable(map, next.0, next.1) {
        Player { x: next.0 as i64, y: next.1 as i64, direction: dir, ..p }
    } else {
        Player { direction: Direction::Stopped, ..p }
    }
}

impl Player {
    /// The position lies within `POSITION_LIMIT` on both axes.
    pub open spec fn within_limits(self) -> bool {
        -POSITION_LIMIT <= self.x <= POSITION_LIMIT && -POSITION_LIMIT <= self.y <= POSITION_LIMIT
    }

    /// A player at rest at `(x, y)`, with no direction asked for.
    pub fn new(x: i64, y: i64) -> (p: Player)
        ensures
            p == (Player { x, y, direction: Direction::Stopped, desired_direction: Direction::Stopped }),
    {
        Player { x, y, direction: Direction::Stopped, desired_direction: Direction::Stopped }
    }

    /// The player's one-tile box, centred on its position.
    pub fn bounding_box(&self) -> (r: Rect)
        requires
            self.within_limits(),
        ensures
            r.x == self.x - HALF_TILE_UNITS,
            r.y == self.y - HALF_TILE_UNITS,
            r.w == TILE_UNITS,
            r.h == TILE_UNITS,
    {
        Rect::new(self.x - HALF_TILE_UNITS, self.y - HALF_TILE_UNITS, TILE_UNITS, TILE_UNITS)
    }

    /// Whether the box centred on `(x, y)` may be occupied.
    fn box_free(x: i64, y: i64, map: &Vec<Vec<u8>>) -> (r: bool)
        requires
            -POSITION_LIMIT * 2 <= x <= POSITION_LIMIT * 2,
            -POSITION_LIMIT * 2 <= y <= POSITION_LIMIT * 2,
        ensures
            r == box_walkable(rows_of(map), x as int, y as int),
    {
        let rect = Rect::new(x - HALF_TILE_UNITS, y - HALF_TILE_UNITS, TILE_UNITS, TILE_UNITS);
        is_rect_walkable(rect, map)
    }

    /// The position `dist` units away in direction `d`.
    fn moved_by(&self, d: Direction, dist: i64) -> (r: (i64, i64))
        requires
            self.within_limits(),
            0 <= dist <= POSITION_LIMIT,
        ensures
            r.0 as int == moved(self.x as int, self.y as int, d, dist as int).0,
            r.1 as int == moved(self.x as int, self.y as int, d, dist as int).1,
    {
        match d {
            Direction::North => (self.x, self.y - dist),
            Direction::South => (self.x, self.y + dist),
            Direction::West => (self.x - dist, self.y),
            Direction::East => (self.x + dist, self.y),
            Direction::Stopped => (self.x, self.y),
        }
    }

    /// Advances the player by one tick of `dt_us` microseconds on `map`.
    pub fn step(&mut self, map: &Vec<Vec<u8>>, dt_us: u32)
        requires
            old(self).within_limits(),
            grid_within_limits(rows_of(map)),
        ensures
            *final(self) == next_player(*old(self), rows_of(map), step_distance(dt_us)),
            final(self).within_limits(),
            (final(self).x == old(self).x && final(self).y == old(self).y)
                || box_walkable(rows_of(map), final(self).x as int, final(self).y as int),
    {
        let ghost g = rows_of(map);
        let dist: i64 = (dt_us as i64) * PLAYER_SPEED * SUBPIXELS / MICROS_PER_SECOND;
        let (wx, wy) = self.moved_by(self.desired_direction, dist);
        if self.desired_direction != Direction::Stopped && Self::box_free(wx, wy, map) {
            self.direction = self.desired_direction;
        }
        let (nx, ny) = self.moved_by(self.direction, dist);
        if Self::box_free(nx, ny, map) {
            proof {
                lemma_walkable_box_within_limits(g, nx as int, ny as int);
            }
            self.x = nx;
            self.y = ny;
        } else {
            self.direction = Direction::Stopped;
        }
    }
}

/// A box that may be occupied lies on the map, hence within `POSITION_LIMIT`.
proof fn lemma_walkable_box_within_limits(map: Seq<Seq<u8>>, x: int, y: int)
    requires
        grid_within_limits(map),
        box_walkable(map, x, y),
    ensures
        -POSITION_LIMIT <= x <= POSITION_LIMIT,
        -POSITION_LIMIT <= y <= POSITION_LIMIT,
{
    let left = x - HALF_TILE_UNITS;
    let top = y - HALF_TILE_UNITS;
    assert(point_walkable(map, left, top));
    let c = tile_col(left);
    let r = tile_row(top);
    assert(in_bounds(map, c, r));
    lemma_fundamental_div_mod(left, TILE_UNITS as int);
    lemma_fundamental_div_mod(top - MAZE_OFFSET_Y * SUBPIXELS, TILE_UNITS as int);
    assert(map[r].len() <= MAX_GRID_TILES);
}

/// A tick never moves the player onto a box that may not be occupied: either the position
/// is unchanged, or the player's new box passes `is_rect_walkable`.
pub proof fn lemma_step_commits_only_walkable(p: Player, map: Seq<Seq<u8>>, dist: int)
    requires
        p.within_limits(),
        0 <= dist <= POSITION_LIMIT,
    ensures
        ({
            let q = next_player(p, map, dist);
            (q.x == p.x && q.y == p.y) || box_walkable(map, q.x as int, q.y as int)
        }),
{
}

} // verus!
